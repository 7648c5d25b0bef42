use text_sphere::geometry::{generate_quad, generate_sphere, sphere_grid, sphere_indices, GridPoint, QuadCorner};

#[test]
fn single_cell_indices() {
    assert_eq!(sphere_indices(1, 1), vec![0, 2, 1, 2, 3, 1]);
}

#[test]
fn two_by_two_cell_order() {
    let r = sphere_indices(2, 2);
    assert_eq!(r.len(), 24);
    // second cell of the first row: first = 1, second = 4
    assert_eq!(&r[6..12], &[1, 4, 2, 4, 5, 2]);
    // first cell of the second row: first = 3, second = 6
    assert_eq!(&r[12..18], &[3, 6, 4, 6, 7, 4]);
}

#[test]
fn scene_sphere_counts() {
    let m = generate_sphere(32, 64);
    assert_eq!(m.grid.len(), 33 * 65);
    assert_eq!(m.indices.len(), 32 * 64 * 6);
    assert!(m.indices.iter().all(|&i| (i as usize) < m.grid.len()));
    assert_eq!(*m.indices.iter().max().unwrap() as usize, m.grid.len() - 1);
}

#[test]
fn grid_is_row_major() {
    let g = sphere_grid(2, 3);
    assert_eq!(g.len(), 12);
    assert_eq!(g[0], GridPoint { row: 0, col: 0 });
    assert_eq!(g[3], GridPoint { row: 0, col: 3 });
    assert_eq!(g[4], GridPoint { row: 1, col: 0 });
    assert_eq!(g[11], GridPoint { row: 2, col: 3 });
}

#[test]
fn no_segments_gives_no_triangles() {
    let m = generate_sphere(0, 4);
    assert_eq!(m.grid.len(), 5);
    assert!(m.indices.is_empty());
}

#[test]
fn largest_grid_fits_u16() {
    let m = generate_sphere(255, 255);
    assert_eq!(m.grid.len(), 65536);
    assert_eq!(m.indices.len(), 255 * 255 * 6);
    assert_eq!(*m.indices.iter().max().unwrap(), 65535);
}

#[test]
fn quad_corners_and_uvs() {
    let q = generate_quad();
    assert_eq!(
        q.corners,
        vec![
            QuadCorner { x: -1, y: -1, u: 0, v: 1 },
            QuadCorner { x: 1, y: -1, u: 1, v: 1 },
            QuadCorner { x: 1, y: 1, u: 1, v: 0 },
            QuadCorner { x: -1, y: 1, u: 0, v: 0 },
        ]
    );
    assert_eq!(q.indices, vec![0, 1, 2, 0, 2, 3]);
}

#[test]
fn winding_is_consistent() {
    // with consistent winding no directed edge is walked by two triangles
    let m = generate_sphere(4, 6);
    let mut seen = std::collections::HashSet::new();
    for t in m.indices.chunks(3) {
        for (a, b) in [(t[0], t[1]), (t[1], t[2]), (t[2], t[0])] {
            assert!(seen.insert((a, b)), "edge {}->{} walked twice", a, b);
        }
    }
    // the diagonal of the first cell is walked both ways
    assert!(seen.contains(&(7, 1)) && seen.contains(&(1, 7)));
}
