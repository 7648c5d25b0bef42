use vstd::prelude::*;
use vstd::arithmetic::div_mod::lemma_fundamental_div_mod_converse;

verus! {

/// Number of vertices in a UV-sphere grid: one row per latitude step
/// (poles included) and one column per longitude step (seam duplicated).
pub open spec fn sphere_vertex_count(lat_segments: nat, lon_segments: nat) -> nat {
    (lat_segments + 1) * (lon_segments + 1)
}

/// Number of quad cells in the grid; each cell gives two triangles.
pub open spec fn sphere_cell_count(lat_segments: nat, lon_segments: nat) -> nat {
    lat_segments * lon_segments
}

/// Vertex `corner` (0..6) of the two triangles of the cell in row `row`,
/// column `col`: `(first, second, first + 1)` and `(second, second + 1, first + 1)`,
/// where `first` is the cell's top-left vertex and `second` the one below it.
pub open spec fn cell_corner(lon_segments: nat, row: nat, col: nat, corner: nat) -> nat {
    let first = row * (lon_segments + 1) + col;
    let second = first + lon_segments + 1;
    if corner == 0 {
        first
    } else if corner == 1 {
        second
    } else if corner == 2 {
        first + 1
    } else if corner == 3 {
        second
    } else if corner == 4 {
        second + 1
    } else {
        first + 1
    }
}

/// The corner `corner` of the cell numbered `cell` in row-major order.
pub open spec fn sphere_index(lon_segments: nat, cell: nat, corner: nat) -> nat {
    cell_corner(lon_segments, cell / lon_segments, cell % lon_segments, corner)
}

/// Every corner of every cell addresses a vertex of the grid.
pub proof fn lemma_cell_corner_in_bounds(
    lat_segments: nat,
    lon_segments: nat,
    row: nat,
    col: nat,
    corner: nat,
)
    requires
        row < lat_segments,
        col < lon_segments,
    ensures
        cell_corner(lon_segments, row, col, corner) < sphere_vertex_count(lat_segments, lon_segments),
{
    let w = lon_segments + 1;
    assert((row + 1) * w <= lat_segments * w) by (nonlinear_arith)
        requires
            row + 1 <= lat_segments,
    ;
    assert((row + 1) * w == row * w + w) by (nonlinear_arith);
    assert((lat_segments + 1) * w == lat_segments * w + w) by (nonlinear_arith);
}


/// The triangles of the grid are wound consistently: each edge that two
/// triangles share is walked in opposite directions by them. Triangle one of
/// a cell is corners `0 → 1 → 2`, triangle two is `3 → 4 → 5`; they share the
/// diagonal, triangle two shares its right edge with triangle one of the cell
/// to the right, and its bottom edge with triangle one of the cell below.
pub proof fn lemma_consistent_winding(lon_segments: nat, row: nat, col: nat)
    ensures
        cell_corner(lon_segments, row, col, 1) == cell_corner(lon_segments, row, col, 3),
        cell_corner(lon_segments, row, col, 2) == cell_corner(lon_segments, row, col, 5),
        cell_corner(lon_segments, row, col + 1, 0) == cell_corner(lon_segments, row, col, 5),
        cell_corner(lon_segments, row, col + 1, 1) == cell_corner(lon_segments, row, col, 4),
        cell_corner(lon_segments, row + 1, col, 2) == cell_corner(lon_segments, row, col, 4),
        cell_corner(lon_segments, row + 1, col, 0) == cell_corner(lon_segments, row, col, 3),
{
    let w = lon_segments + 1;
    assert((row + 1) * w == row * w + w) by (nonlinear_arith);
}

/// Triangle indices of a UV-sphere grid: six per cell, cells in row-major
/// order, each index a vertex of the grid.
pub fn sphere_indices(lat_segments: u32, lon_segments: u32) -> (r: Vec<u16>)
    requires
        sphere_vertex_count(lat_segments as nat, lon_segments as nat) <= 65536,
    ensures
        r@.len() == 6 * sphere_cell_count(lat_segments as nat, lon_segments as nat),
        forall|cell: int, corner: int|
            0 <= cell < sphere_cell_count(lat_segments as nat, lon_segments as nat) && 0 <= corner < 6
                ==> #[trigger] r@[6 * cell + corner] as nat == sphere_index(
                lon_segments as nat,
                cell as nat,
                corner as nat,
            ),
        forall|k: int|
            0 <= k < r@.len() ==> (#[trigger] r@[k] as nat) < sphere_vertex_count(
                lat_segments as nat,
                lon_segments as nat,
            ),
{
    let ghost lat = lat_segments as nat;
    let ghost lon = lon_segments as nat;
    let ghost nv = sphere_vertex_count(lat, lon);
    proof {
        assert(lat * (lon + 1) <= nv) by (nonlinear_arith)
            requires
                nv == (lat + 1) * (lon + 1),
        ;
        assert(lat * lon <= lat * (lon + 1)) by (nonlinear_arith);
    }
    let mut r: Vec<u16> = Vec::new();
    let mut row: u32 = 0;
    while row < lat_segments
        invariant
            row <= lat_segments,
            lat == lat_segments as nat,
            lon == lon_segments as nat,
            nv == sphere_vertex_count(lat, lon),
            nv <= 65536,
            lat * lon <= nv,
            r@.len() == 6 * (row * lon),
            forall|cell: int, corner: int|
                0 <= cell < row * lon && 0 <= corner < 6 ==> #[trigger] r@[6 * cell + corner] as nat
                    == sphere_index(lon, cell as nat, corner as nat),
            forall|k: int| 0 <= k < r@.len() ==> (#[trigger] r@[k] as nat) < nv,
        decreases lat_segments - row,
    {
        let mut col: u32 = 0;
        while col < lon_segments
            invariant
                row < lat_segments,
                col <= lon_segments,
                lat == lat_segments as nat,
            lon == lon_segments as nat,
            nv == sphere_vertex_count(lat, lon),
                nv <= 65536,
                lat * lon <= nv,
                r@.len() == 6 * (row * lon + col),
                forall|cell: int, corner: int|
                    0 <= cell < row * lon + col && 0 <= corner < 6 ==> #[trigger] r@[6 * cell + corner]
                        as nat == sphere_index(lon, cell as nat, corner as nat),
                forall|k: int| 0 <= k < r@.len() ==> (#[trigger] r@[k] as nat) < nv,
            decreases lon_segments - col,
        {
            let ghost cell = row * lon + col;
            proof {
                lemma_fundamental_div_mod_converse(cell as int, lon as int, row as int, col as int);
                assert forall|c: nat| c < 6 implies cell_corner(lon, row as nat, col as nat, c) < nv by {
                    lemma_cell_corner_in_bounds(lat, lon, row as nat, col as nat, c);
                }
                assert(row * (lon + 1) + col < nv) by {
                    lemma_cell_corner_in_bounds(lat, lon, row as nat, col as nat, 0);
                }
                assert(row * (lon + 1) + col + lon + 2 < nv) by {
                    lemma_cell_corner_in_bounds(lat, lon, row as nat, col as nat, 4);
                }
            }
            let first: u32 = row * (lon_segments + 1) + col;
            let second: u32 = first + lon_segments + 1;
            let ghost before = r@;
            r.push(first as u16);
            r.push(second as u16);
            r.push((first + 1) as u16);
            r.push(second as u16);
            r.push((second + 1) as u16);
            r.push((first + 1) as u16);
            proof {
                assert(r@.len() == 6 * (row * lon + col + 1));
                assert forall|c: int, corner: int|
                    0 <= c < row * lon + col + 1 && 0 <= corner < 6 implies #[trigger] r@[6 * c + corner]
                    as nat == sphere_index(lon, c as nat, corner as nat) by {
                    if c < cell {
                        assert(r@[6 * c + corner] == before[6 * c + corner]);
                    } else {
                        assert(c == cell);
                    }
                }
            }
            col = col + 1;
        }
        proof {
            assert(row * lon + lon == (row + 1) * lon) by (nonlinear_arith);
            assert((row + 1) * lon <= lat * lon) by (nonlinear_arith)
                requires
                    row + 1 <= lat,
            ;
        }
        row = row + 1;
    }
    r
}

/// A vertex of the sphere grid, named by its latitude step (`row`, from the
/// north pole down) and its longitude step (`col`, around the axis).
#[derive(Clone, Copy, PartialEq, Eq, Structural, Debug)]
pub struct GridPoint {
    pub row: u32,
    pub col: u32,
}

/// The grid's vertices in row-major order: vertex `k` lies in row
/// `k / (lon_segments + 1)` and column `k % (lon_segments + 1)`.
pub fn sphere_grid(lat_segments: u32, lon_segments: u32) -> (r: Vec<GridPoint>)
    requires
        sphere_vertex_count(lat_segments as nat, lon_segments as nat) <= 65536,
    ensures
        r@.len() == sphere_vertex_count(lat_segments as nat, lon_segments as nat),
        forall|k: int|
            0 <= k < r@.len() ==> (#[trigger] r@[k]).row == k / (lon_segments + 1) && r@[k].col
                == k % (lon_segments + 1),
{
    let ghost lat = lat_segments as nat;
    let ghost w = lon_segments as nat + 1;
    proof {
        assert(lat + 1 <= (lat + 1) * w && w <= (lat + 1) * w) by (nonlinear_arith)
            requires
                w >= 1,
        ;
    }
    let mut r: Vec<GridPoint> = Vec::new();
    let mut row: u32 = 0;
    while row <= lat_segments
        invariant
            lat == lat_segments as nat,
            w == lon_segments as nat + 1,
            (lat + 1) * w <= 65536,
            lat < 65536,
            w <= 65536,
            row <= lat_segments + 1,
            r@.len() == row * w,
            forall|k: int|
                0 <= k < r@.len() ==> (#[trigger] r@[k]).row == k / (w as int) && r@[k].col == k
                    % (w as int),
        decreases lat_segments + 1 - row,
    {
        let mut col: u32 = 0;
        while col <= lon_segments
            invariant
                lat == lat_segments as nat,
                w == lon_segments as nat + 1,
                (lat + 1) * w <= 65536,
                lat < 65536,
                w <= 65536,
            lat < 65536,
            w <= 65536,
                row <= lat_segments,
                col <= lon_segments + 1,
                r@.len() == row * w + col,
                forall|k: int|
                    0 <= k < r@.len() ==> (#[trigger] r@[k]).row == k / (w as int) && r@[k].col
                        == k % (w as int),
            decreases lon_segments + 1 - col,
        {
            proof {
                lemma_fundamental_div_mod_converse(
                    (row * w + col) as int,
                    w as int,
                    row as int,
                    col as int,
                );
            }
            r.push(GridPoint { row, col });
            col = col + 1;
        }
        proof {
            assert(row * w + w == (row + 1) * w) by (nonlinear_arith);
        }
        row = row + 1;
    }
    r
}

/// The topology of a UV-sphere: its vertex grid and its triangle list.
pub struct SphereMesh {
    pub grid: Vec<GridPoint>,
    pub indices: Vec<u16>,
}

/// Builds the sphere's grid and triangles together.
pub fn generate_sphere(lat_segments: u32, lon_segments: u32) -> (r: SphereMesh)
    requires
        sphere_vertex_count(lat_segments as nat, lon_segments as nat) <= 65536,
    ensures
        r.grid@.len() == sphere_vertex_count(lat_segments as nat, lon_segments as nat),
        r.indices@.len() == 6 * sphere_cell_count(lat_segments as nat, lon_segments as nat),
        forall|k: int| 0 <= k < r.indices@.len() ==> (#[trigger] r.indices@[k] as int) < r.grid@.len(),
        forall|k: int|
            0 <= k < r.grid@.len() ==> (#[trigger] r.grid@[k]).row == k / (lon_segments + 1)
                && r.grid@[k].col == k % (lon_segments + 1),
        forall|cell: int, corner: int|
            0 <= cell < sphere_cell_count(lat_segments as nat, lon_segments as nat) && 0 <= corner
                < 6 ==> #[trigger] r.indices@[6 * cell + corner] as nat == sphere_index(
                lon_segments as nat,
                cell as nat,
                corner as nat,
            ),
{
    let grid = sphere_grid(lat_segments, lon_segments);
    let indices = sphere_indices(lat_segments, lon_segments);
    SphereMesh { grid, indices }
}

/// A corner of the billboard quad. `x` and `y` are in half units (the quad
/// spans -0.5..0.5, so each is -1 or 1); `u` and `v` are texture coordinates,
/// with `v` counted from the top of the glyph image.
#[derive(Clone, Copy, PartialEq, Eq, Structural, Debug)]
pub struct QuadCorner {
    pub x: i8,
    pub y: i8,
    pub u: u8,
    pub v: u8,
}

/// The corners of the quad, counter-clockwise from the bottom left.
pub open spec fn quad_corners() -> Seq<QuadCorner> {
    seq![
        QuadCorner { x: -1i8, y: -1i8, u: 0, v: 1 },
        QuadCorner { x: 1, y: -1i8, u: 1, v: 1 },
        QuadCorner { x: 1, y: 1, u: 1, v: 0 },
        QuadCorner { x: -1i8, y: 1, u: 0, v: 0 },
    ]
}

/// A unit quad in the XY plane: four corners and two triangles.
pub struct QuadMesh {
    pub corners: Vec<QuadCorner>,
    pub indices: Vec<u16>,
}

/// Builds the billboard quad. The texture's `u` grows with `x` and its `v`
/// shrinks as `y` grows, so a glyph image stored top row first shows upright.
pub fn generate_quad() -> (r: QuadMesh)
    ensures
        r.corners@ == quad_corners(),
        r.indices@ == seq![0u16, 1, 2, 0, 2, 3],
        forall|k: int|
            0 <= k < 4 ==> 2 * (#[trigger] r.corners@[k]).u == r.corners@[k].x + 1 && 2
                * r.corners@[k].v == 1 - r.corners@[k].y,
{
    let mut corners: Vec<QuadCorner> = Vec::new();
    corners.push(QuadCorner { x: -1, y: -1, u: 0, v: 1 });
    corners.push(QuadCorner { x: 1, y: -1, u: 1, v: 1 });
    corners.push(QuadCorner { x: 1, y: 1, u: 1, v: 0 });
    corners.push(QuadCorner { x: -1, y: 1, u: 0, v: 0 });
    let mut indices: Vec<u16> = Vec::new();
    indices.push(0);
    indices.push(1);
    indices.push(2);
    indices.push(0);
    indices.push(2);
    indices.push(3);
    assert(corners@ =~= quad_corners());
    assert(indices@ =~= seq![0u16, 1, 2, 0, 2, 3]);
    QuadMesh { corners, indices }
}

} // verus!
