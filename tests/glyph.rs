use raytrascii::glyph::{brightness_glyph, palette_index, MAX_LEVEL, PALETTE_LEN};

#[test]
fn black_maps_to_first_glyph() {
    assert_eq!(palette_index(0), 0);
    assert_eq!(brightness_glyph(0), '$');
}

#[test]
fn white_maps_to_last_glyph() {
    assert_eq!(MAX_LEVEL, 207);
    assert_eq!(palette_index(MAX_LEVEL), PALETTE_LEN - 1);
    assert_eq!(brightness_glyph(207), '.');
}

#[test]
fn levels_above_white_clamp_to_last_glyph() {
    assert_eq!(palette_index(208), PALETTE_LEN - 1);
    assert_eq!(brightness_glyph(255), '.');
}

#[test]
fn middle_level_index() {
    // floor(103 * 69 / 207) = 34
    assert_eq!(palette_index(103), 34);
    assert_eq!(brightness_glyph(103), 'n');
    assert_eq!(brightness_glyph(3), '@');
    assert_eq!(brightness_glyph(2), '$');
}

#[test]
fn level_of_brightness_gives_glyph_of_brightness() {
    // a brightness b has level floor(b * 207) and glyph index floor(b * 69)
    for &b in &[0.0f64, 0.0144, 0.0145, 0.5, 0.9, 0.985, 0.999, 1.0] {
        let level = (b * MAX_LEVEL as f64).floor() as u8;
        let expected = ((b * PALETTE_LEN as f64).floor() as usize).min(PALETTE_LEN - 1);
        assert_eq!(palette_index(level), expected);
    }
}

#[test]
fn glyph_index_is_monotonic() {
    let mut prev = palette_index(0);
    for level in 1..=255u8 {
        let i = palette_index(level);
        assert!(i >= prev);
        assert!(i < PALETTE_LEN);
        prev = i;
    }
}
