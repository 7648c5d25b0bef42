use vstd::prelude::*;

verus! {

/// The glyphs that orbit the sphere, one letter per character.
pub const DISPLAY_TEXT: &'static str = "[wasm-text-sphere]";

/// Number of colors in the palette; letters cycle through it by position.
pub const PALETTE_LEN: usize = 18;

/// Orbit radius of every letter, in thousandths of a scene unit.
pub const ORBIT_RADIUS_MILLI: u32 = 2200;

/// Tilt of the orbital plane, in milliradians.
pub const INCLINATION_MILLIRAD: u32 = 120;

/// Angular velocity of every letter, in milliradians per second.
pub const ORBIT_SPEED_MILLIRAD: u32 = 300;

/// Spin rate of the sphere about its Y axis, in milliradians per second.
pub const SPIN_SPEED_MILLIRAD: u32 = 100;

/// The palette as 24-bit RGB values.
pub open spec fn palette() -> Seq<u32> {
    seq![
        0xFF6B6B,
        0x4ECDC4,
        0x45B7D1,
        0x96CEB4,
        0xFFEAA7,
        0xDDA0DD,
        0x98D8C8,
        0xF7DC6F,
        0xBB8FCE,
        0x85C1E9,
        0xF8B500,
        0x00CED1,
        0xFF69B4,
        0x7FFF00,
        0xFFB6C1,
        0x40E0D0,
        0xFF6347,
        0x9370DB,
    ]
}

/// The color of the letter at position `i`.
pub fn palette_color(i: usize) -> (c: u32)
    ensures
        c == palette()[(i % PALETTE_LEN) as int],
        c < 0x1000000,
{
    match i % PALETTE_LEN {
        0 => 0xFF6B6B,
        1 => 0x4ECDC4,
        2 => 0x45B7D1,
        3 => 0x96CEB4,
        4 => 0xFFEAA7,
        5 => 0xDDA0DD,
        6 => 0x98D8C8,
        7 => 0xF7DC6F,
        8 => 0xBB8FCE,
        9 => 0x85C1E9,
        10 => 0xF8B500,
        11 => 0x00CED1,
        12 => 0xFF69B4,
        13 => 0x7FFF00,
        14 => 0xFFB6C1,
        15 => 0x40E0D0,
        16 => 0xFF6347,
        _ => 0x9370DB,
    }
}

/// Upper-case hexadecimal digits.
pub open spec fn hex_digits() -> Seq<char> {
    seq!['0', '1', '2', '3', '4', '5', '6', '7', '8', '9', 'A', 'B', 'C', 'D', 'E', 'F']
}

/// The digit for `d` (`d < 16`).
fn hex_digit(d: u32) -> (c: char)
    requires
        d < 16,
    ensures
        c == hex_digits()[d as int],
{
    match d {
        0 => '0',
        1 => '1',
        2 => '2',
        3 => '3',
        4 => '4',
        5 => '5',
        6 => '6',
        7 => '7',
        8 => '8',
        9 => '9',
        10 => 'A',
        11 => 'B',
        12 => 'C',
        13 => 'D',
        14 => 'E',
        _ => 'F',
    }
}

/// `#RRGGBB`: a hash and six upper-case hex digits, most significant first.
pub open spec fn color_text(c: u32) -> Seq<char> {
    seq![
        '#',
        hex_digits()[((c / 0x100000) % 16) as int],
        hex_digits()[((c / 0x10000) % 16) as int],
        hex_digits()[((c / 0x1000) % 16) as int],
        hex_digits()[((c / 0x100) % 16) as int],
        hex_digits()[((c / 0x10) % 16) as int],
        hex_digits()[(c % 16) as int],
    ]
}

/// Writes a 24-bit color in the `#RRGGBB` notation that the glyph rasterizer takes.
pub fn color_hex(c: u32) -> (r: Vec<char>)
    ensures
        r@ == color_text(c),
{
    let mut r: Vec<char> = Vec::new();
    r.push('#');
    r.push(hex_digit((c / 0x100000) % 16));
    r.push(hex_digit((c / 0x10000) % 16));
    r.push(hex_digit((c / 0x1000) % 16));
    r.push(hex_digit((c / 0x100) % 16));
    r.push(hex_digit((c / 0x10) % 16));
    r.push(hex_digit(c % 16));
    assert(r@ =~= color_text(c));
    r
}

/// One glyph on the orbit. Its starting phase is `-π/2 - slot·2π/count`
/// radians, so the `count` letters of a text are spread evenly round the
/// circle; orbit parameters are exact integers in the units named above.
#[derive(Clone, Copy, PartialEq, Eq, Structural, Debug)]
pub struct OrbitingLetter {
    pub glyph: char,
    pub color: u32,
    pub slot: usize,
    pub count: usize,
    pub radius_milli: u32,
    pub inclination_millirad: u32,
    pub angular_velocity_millirad: u32,
}

/// The letter that the character at position `i` of `text` becomes.
pub open spec fn letter_at(text: Seq<char>, i: int) -> OrbitingLetter {
    OrbitingLetter {
        glyph: text[i],
        color: palette()[i % (PALETTE_LEN as int)],
        slot: i as usize,
        count: text.len() as usize,
        radius_milli: ORBIT_RADIUS_MILLI,
        inclination_millirad: INCLINATION_MILLIRAD,
        angular_velocity_millirad: ORBIT_SPEED_MILLIRAD,
    }
}

/// The starting phase in units of a `4·count`-th of a turn.
pub open spec fn phase_units(l: OrbitingLetter) -> int {
    -(l.count + 4 * l.slot)
}

impl OrbitingLetter {
    /// The starting phase as a fraction of a full turn: `num / den` turns.
    pub fn phase_fraction(&self) -> (r: (i64, u64))
        requires
            0 < self.count,
            self.slot < self.count,
            self.count <= 0x1000_0000,
        ensures
            r.0 == phase_units(*self),
            r.1 == 4 * self.count,
    {
        let num: i64 = -((self.count as i64) + 4 * (self.slot as i64));
        (num, 4 * (self.count as u64))
    }
}

/// One letter per character of `text`, in order, each with its palette color
/// and its evenly spaced slot.
pub fn layout_letters(text: &str) -> (r: Vec<OrbitingLetter>)
    ensures
        r@.len() == text@.len(),
        forall|i: int| 0 <= i < r@.len() ==> #[trigger] r@[i] == letter_at(text@, i),
{
    let n = text.unicode_len();
    let mut r: Vec<OrbitingLetter> = Vec::new();
    let mut i: usize = 0;
    while i < n
        invariant
            n == text@.len(),
            i <= n,
            r@.len() == i,
            forall|k: int| 0 <= k < i ==> #[trigger] r@[k] == letter_at(text@, k),
        decreases n - i,
    {
        let glyph = text.get_char(i);
        let color = palette_color(i);
        r.push(
            OrbitingLetter {
                glyph,
                color,
                slot: i,
                count: n,
                radius_milli: ORBIT_RADIUS_MILLI,
                inclination_millirad: INCLINATION_MILLIRAD,
                angular_velocity_millirad: ORBIT_SPEED_MILLIRAD,
            },
        );
        i = i + 1;
    }
    r
}

/// The letters of the scene: those of `DISPLAY_TEXT`, one per character.
pub fn scene_letters() -> (r: Vec<OrbitingLetter>)
    ensures
        r@.len() == 18,
        forall|i: int| 0 <= i < 18 ==> #[trigger] r@[i] == letter_at(DISPLAY_TEXT@, i),
{
    proof {
        reveal_strlit("[wasm-text-sphere]");
    }
    layout_letters(DISPLAY_TEXT)
}

/// Any two letters of one text share radius, inclination and angular velocity,
/// and the letter `d` places later starts exactly `d / count` of a turn behind.
pub proof fn lemma_letters_evenly_spaced(text: Seq<char>, i: int, j: int)
    requires
        text.len() <= usize::MAX,
        0 <= i < text.len(),
        0 <= j < text.len(),
    ensures
        letter_at(text, i).radius_milli == letter_at(text, j).radius_milli,
        letter_at(text, i).inclination_millirad == letter_at(text, j).inclination_millirad,
        letter_at(text, i).angular_velocity_millirad == letter_at(text, j).angular_velocity_millirad,
        letter_at(text, i).count == letter_at(text, j).count,
        phase_units(letter_at(text, i)) - phase_units(letter_at(text, j)) == 4 * (j - i),
{
}

/// Over one orbital period the letters make exactly one turn, while the sphere
/// makes a third of one: its rotation after a period is never the identity.
pub proof fn lemma_sphere_out_of_step_with_orbit()
    ensures
        ORBIT_SPEED_MILLIRAD > 0,
        ORBIT_SPEED_MILLIRAD == 3 * SPIN_SPEED_MILLIRAD,
        SPIN_SPEED_MILLIRAD % ORBIT_SPEED_MILLIRAD != 0,
{
}

} // verus!
