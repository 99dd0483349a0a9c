use raytrascii::frame::{cell_index, Emit, Frame};
use raytrascii::render::{Cell, Rgb};

fn plain(glyph: char) -> Cell {
    Cell { glyph, color: None }
}

#[test]
fn bottom_row_comes_last() {
    // 3 columns, 2 rows: row 0 is the bottom row, stored after the top row
    assert_eq!(cell_index(3, 2, 0, 0), 3);
    assert_eq!(cell_index(3, 2, 2, 0), 5);
    assert_eq!(cell_index(3, 2, 0, 1), 0);
    assert_eq!(cell_index(3, 2, 2, 1), 2);
}

#[test]
fn every_pixel_has_its_own_index() {
    let (cols, rows) = (7u16, 5u16);
    let mut seen = vec![false; (cols as usize) * (rows as usize)];
    for row in 0..rows {
        for col in 0..cols {
            let i = cell_index(cols, rows, col, row);
            assert!(!seen[i]);
            seen[i] = true;
        }
    }
    assert!(seen.iter().all(|s| *s));
}

#[test]
fn frame_from_rows_inverts_rows() {
    let by_row = vec![vec![plain('a'), plain('b')], vec![plain('c'), plain('d')]];
    let f = Frame::from_rows(2, 2, &by_row);
    assert_eq!(f.cols(), 2);
    assert_eq!(f.rows(), 2);
    assert_eq!(f.cell(0, 0), plain('a'));
    assert_eq!(f.cell(1, 0), plain('b'));
    assert_eq!(f.cell(0, 1), plain('c'));
    assert_eq!(f.cell(1, 1), plain('d'));
    let glyphs: Vec<Emit> = f.emission();
    assert_eq!(
        glyphs,
        vec![Emit::Glyph('c'), Emit::Glyph('d'), Emit::Glyph('a'), Emit::Glyph('b')]
    );
}

#[test]
fn emission_wraps_colored_cells() {
    let red = Rgb { r: 255, g: 0, b: 0 };
    let by_row = vec![vec![Cell { glyph: 'x', color: Some(red) }, plain('y')]];
    let f = Frame::from_rows(2, 1, &by_row);
    assert_eq!(
        f.emission(),
        vec![
            Emit::SetForeground(red),
            Emit::Glyph('x'),
            Emit::ResetColor,
            Emit::Glyph('y'),
        ]
    );
}

#[test]
fn empty_frame_sends_nothing() {
    let f = Frame::from_rows(0, 0, &Vec::new());
    assert!(f.emission().is_empty());
}
