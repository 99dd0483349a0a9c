//! Render settings and the mapping of a shaded pixel to an output cell.

use vstd::prelude::*;

use crate::glyph::{brightness_glyph, glyph_index, palette};

verus! {

/// Size of the rendered output.
#[derive(Debug, Clone, Copy, PartialEq, Eq, Structural)]
pub enum RenderDimensions {
    ConcreteSize { cols: u16, rows: u16 },
    TermSize,
    RelativeToTermSize { offset_cols: i32, offset_rows: i32 },
}

/// Mode of the rendered output.
#[derive(Debug, Clone, Copy, PartialEq, Eq, Structural)]
pub enum RenderMode {
    Brightness,
    Color,
    ColorAndBrightness,
}

/// An 8-bit color for the display.
#[derive(Debug, Clone, Copy, PartialEq, Eq, Structural)]
pub struct Rgb {
    pub r: u8,
    pub g: u8,
    pub b: u8,
}

/// One cell of the output grid: a glyph, and a foreground color if the mode shows color.
#[derive(Debug, Clone, Copy, PartialEq, Eq, Structural)]
pub struct Cell {
    pub glyph: char,
    pub color: Option<Rgb>,
}

/// Glyph written where the mode does not show brightness.
pub const PLAIN_GLYPH: char = '#';

/// A size plus a signed offset, when the result fits in `u16`.
pub open spec fn offset_size(size: u16, offset: i32) -> Option<u16> {
    let s = size as int + offset as int;
    if 0 <= s && s <= u16::MAX as int {
        Some(s as u16)
    } else {
        None
    }
}

impl RenderDimensions {
    /// The output size `(cols, rows)` for a display of size `term`, if there is one:
    /// a concrete size stands as given, the others need the display size.
    pub open spec fn resolved(self, term: Option<(u16, u16)>) -> Option<(u16, u16)> {
        match self {
            RenderDimensions::ConcreteSize { cols, rows } => Some((cols, rows)),
            RenderDimensions::TermSize => term,
            RenderDimensions::RelativeToTermSize { offset_cols, offset_rows } => match term {
                Some((c, r)) => match (offset_size(c, offset_cols), offset_size(r, offset_rows)) {
                    (Some(oc), Some(or)) => Some((oc, or)),
                    _ => None,
                },
                None => None,
            },
        }
    }

    /// Whether the output size depends on the display size.
    pub fn needs_term_size(&self) -> (b: bool)
        ensures
            b == !(*self is ConcreteSize),
    {
        match self {
            RenderDimensions::ConcreteSize { .. } => false,
            _ => true,
        }
    }

    /// Resolves the output size against the display size `term`, where it is known.
    ///
    /// Returns `None` when the display size is needed and not given, or when an offset
    /// takes a side below zero or above `u16::MAX`.
    pub fn resolve(&self, term: Option<(u16, u16)>) -> (r: Option<(u16, u16)>)
        ensures
            r == self.resolved(term),
    {
        match self {
            RenderDimensions::ConcreteSize { cols, rows } => Some((*cols, *rows)),
            RenderDimensions::TermSize => term,
            RenderDimensions::RelativeToTermSize { offset_cols, offset_rows } => match term {
                Some((c, r)) => {
                    let oc = add_offset(c, *offset_cols);
                    let or = add_offset(r, *offset_rows);
                    match (oc, or) {
                        (Some(oc), Some(or)) => Some((oc, or)),
                        _ => None,
                    }
                },
                None => None,
            },
        }
    }
}

fn add_offset(size: u16, offset: i32) -> (r: Option<u16>)
    ensures
        r == offset_size(size, offset),
{
    let s: i64 = size as i64 + offset as i64;
    if 0 <= s && s <= u16::MAX as i64 {
        Some(s as u16)
    } else {
        None
    }
}

impl RenderMode {
    /// Whether cells carry a glyph chosen by brightness.
    pub open spec fn spec_shows_brightness(self) -> bool {
        self is Brightness || self is ColorAndBrightness
    }

    /// Whether cells carry a foreground color.
    pub open spec fn spec_shows_color(self) -> bool {
        self is Color || self is ColorAndBrightness
    }

    pub fn shows_brightness(&self) -> (b: bool)
        ensures
            b == self.spec_shows_brightness(),
    {
        match self {
            RenderMode::Brightness | RenderMode::ColorAndBrightness => true,
            RenderMode::Color => false,
        }
    }

    pub fn shows_color(&self) -> (b: bool)
        ensures
            b == self.spec_shows_color(),
    {
        match self {
            RenderMode::Color | RenderMode::ColorAndBrightness => true,
            RenderMode::Brightness => false,
        }
    }
}

/// The cell for a pixel of brightness level `level` and color `rgb`, in mode `mode`.
pub open spec fn shaded_cell(mode: RenderMode, level: u8, rgb: Rgb) -> Cell {
    Cell {
        glyph: if mode.spec_shows_brightness() {
            palette()[glyph_index(level)]
        } else {
            PLAIN_GLYPH
        },
        color: if mode.spec_shows_color() {
            Some(rgb)
        } else {
            None
        },
    }
}

impl Cell {
    /// Builds the output cell of a corrected pixel, from its brightness level and color.
    pub fn shade(mode: RenderMode, level: u8, rgb: Rgb) -> (c: Cell)
        ensures
            c == shaded_cell(mode, level, rgb),
    {
        let glyph = if mode.shows_brightness() {
            brightness_glyph(level)
        } else {
            PLAIN_GLYPH
        };
        let color = if mode.shows_color() {
            Some(rgb)
        } else {
            None
        };
        Cell { glyph, color }
    }
}

} // verus!
