use text_sphere::scene::{
    color_hex, layout_letters, palette_color, scene_letters, DISPLAY_TEXT, INCLINATION_MILLIRAD,
    ORBIT_RADIUS_MILLI, ORBIT_SPEED_MILLIRAD, PALETTE_LEN, SPIN_SPEED_MILLIRAD,
};

#[test]
fn palette_cycles() {
    assert_eq!(palette_color(0), 0xFF6B6B);
    assert_eq!(palette_color(17), 0x9370DB);
    assert_eq!(palette_color(PALETTE_LEN), 0xFF6B6B);
    assert_eq!(palette_color(19), 0x4ECDC4);
}

#[test]
fn hex_color_text() {
    let s: String = color_hex(0xFF6B6B).into_iter().collect();
    assert_eq!(s, "#FF6B6B");
    let s: String = color_hex(0x00CED1).into_iter().collect();
    assert_eq!(s, "#00CED1");
    let s: String = color_hex(0).into_iter().collect();
    assert_eq!(s, "#000000");
}

#[test]
fn scene_letter_entities() {
    let letters = scene_letters();
    let glyphs: Vec<char> = DISPLAY_TEXT.chars().collect();
    // brackets and hyphens are glyphs too
    assert_eq!(letters.len(), 18);
    for (i, l) in letters.iter().enumerate() {
        assert_eq!(l.glyph, glyphs[i]);
        assert_eq!(l.slot, i);
        assert_eq!(l.count, 18);
        assert_eq!(l.radius_milli, 2200);
        assert_eq!(l.inclination_millirad, 120);
        assert_eq!(l.angular_velocity_millirad, 300);
        assert_eq!(l.color, palette_color(i));
    }
    assert_eq!(letters[0].glyph, '[');
    assert_eq!(letters[5].glyph, '-');
    assert_eq!(letters[17].glyph, ']');
}

#[test]
fn phases_evenly_spaced() {
    let letters = scene_letters();
    let (n0, d0) = letters[0].phase_fraction();
    // a quarter turn back: -pi/2
    assert_eq!((n0, d0), (-18, 72));
    for w in letters.windows(2) {
        let (a, da) = w[0].phase_fraction();
        let (b, db) = w[1].phase_fraction();
        assert_eq!(da, db);
        // one eighteenth of a turn apart
        assert_eq!(a - b, 4);
    }
    let phase = 2.0 * std::f64::consts::PI * n0 as f64 / d0 as f64;
    assert!((phase + std::f64::consts::FRAC_PI_2).abs() < 1e-12);
}

#[test]
fn layout_of_other_text() {
    let letters = layout_letters("aé");
    assert_eq!(letters.len(), 2);
    assert_eq!(letters[1].glyph, 'é');
    assert_eq!(letters[1].slot, 1);
    assert_eq!(letters[1].count, 2);
    assert!(layout_letters("").is_empty());
}

#[test]
fn orbit_constants() {
    assert_eq!(ORBIT_RADIUS_MILLI, 2200);
    assert_eq!(INCLINATION_MILLIRAD, 120);
    assert_eq!(ORBIT_SPEED_MILLIRAD, 300);
    assert_eq!(SPIN_SPEED_MILLIRAD, 100);
    // after one orbital period the sphere has turned a third of a turn
    assert_ne!(SPIN_SPEED_MILLIRAD % ORBIT_SPEED_MILLIRAD, 0);
}
