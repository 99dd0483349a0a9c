use raytrascii::render::{Cell, RenderDimensions, RenderMode, Rgb, PLAIN_GLYPH};

#[test]
fn concrete_size_ignores_terminal() {
    let d = RenderDimensions::ConcreteSize { cols: 10, rows: 7 };
    assert!(!d.needs_term_size());
    assert_eq!(d.resolve(None), Some((10, 7)));
    assert_eq!(d.resolve(Some((80, 24))), Some((10, 7)));
}

#[test]
fn term_size_takes_terminal() {
    let d = RenderDimensions::TermSize;
    assert!(d.needs_term_size());
    assert_eq!(d.resolve(Some((80, 24))), Some((80, 24)));
    assert_eq!(d.resolve(None), None);
}

#[test]
fn relative_size_adds_offsets() {
    let d = RenderDimensions::RelativeToTermSize { offset_cols: -2, offset_rows: 3 };
    assert!(d.needs_term_size());
    assert_eq!(d.resolve(Some((80, 24))), Some((78, 27)));
    assert_eq!(d.resolve(None), None);
}

#[test]
fn relative_size_out_of_range() {
    let below = RenderDimensions::RelativeToTermSize { offset_cols: -81, offset_rows: 0 };
    assert_eq!(below.resolve(Some((80, 24))), None);
    let above = RenderDimensions::RelativeToTermSize { offset_cols: 0, offset_rows: 65_512 };
    assert_eq!(above.resolve(Some((80, 24))), None);
    let edge = RenderDimensions::RelativeToTermSize { offset_cols: -80, offset_rows: 65_511 };
    assert_eq!(edge.resolve(Some((80, 24))), Some((0, 65_535)));
}

#[test]
fn modes_select_outputs() {
    assert!(RenderMode::Brightness.shows_brightness());
    assert!(!RenderMode::Brightness.shows_color());
    assert!(!RenderMode::Color.shows_brightness());
    assert!(RenderMode::Color.shows_color());
    assert!(RenderMode::ColorAndBrightness.shows_brightness());
    assert!(RenderMode::ColorAndBrightness.shows_color());
}

#[test]
fn shade_by_mode() {
    let rgb = Rgb { r: 10, g: 20, b: 30 };
    assert_eq!(
        Cell::shade(RenderMode::Brightness, 255, rgb),
        Cell { glyph: '.', color: None }
    );
    assert_eq!(
        Cell::shade(RenderMode::Color, 255, rgb),
        Cell { glyph: PLAIN_GLYPH, color: Some(rgb) }
    );
    assert_eq!(
        Cell::shade(RenderMode::ColorAndBrightness, 0, rgb),
        Cell { glyph: '$', color: Some(rgb) }
    );
}
