//! Mapping a brightness level to a glyph of a fixed palette.

use vstd::prelude::*;

verus! {

/// Number of glyphs in the palette.
pub const PALETTE_LEN: usize = 69;

/// Highest brightness level: a brightness `b` in `[0, 1]` has the level `floor(b * MAX_LEVEL)`.
///
/// It is a multiple of `PALETTE_LEN`, so the glyph of that level is the one at
/// `floor(b * PALETTE_LEN)`, clamped to the last index.
pub const MAX_LEVEL: u8 = 207;

/// The palette, indexed from the glyph for black up to the glyph for white.
pub open spec fn palette() -> Seq<char> {
    seq![
        '$', '@', 'B', '%', '8', '&', 'W', 'M', '#', '*', 'o', 'a', 'h', 'k', 'b',
        'd', 'p', 'q', 'w', 'm', 'Z', 'O', '0', 'Q', 'L', 'C', 'J', 'U', 'Y', 'X',
        'z', 'c', 'v', 'u', 'n', 'x', 'r', 'j', 'f', 't', '/', '\\', '|', '(', ')',
        '1', '{', '}', '[', ']', '?', '-', '_', '+', '~', '<', '>', 'i', '!', 'l',
        'I', ';', ':', ',', '"', '^', '`', '\'', '.',
    ]
}

/// Palette index of a brightness level: `floor(level * PALETTE_LEN / MAX_LEVEL)`,
/// clamped to the last index.
pub open spec fn glyph_index(level: u8) -> int {
    let i = (level as int) * (PALETTE_LEN as int) / (MAX_LEVEL as int);
    if i < PALETTE_LEN as int { i } else { PALETTE_LEN as int - 1 }
}

fn palette_vec() -> (p: Vec<char>)
    ensures
        p@ == palette(),
{
    let p = vec![
        '$', '@', 'B', '%', '8', '&', 'W', 'M', '#', '*', 'o', 'a', 'h', 'k', 'b',
        'd', 'p', 'q', 'w', 'm', 'Z', 'O', '0', 'Q', 'L', 'C', 'J', 'U', 'Y', 'X',
        'z', 'c', 'v', 'u', 'n', 'x', 'r', 'j', 'f', 't', '/', '\\', '|', '(', ')',
        '1', '{', '}', '[', ']', '?', '-', '_', '+', '~', '<', '>', 'i', '!', 'l',
        'I', ';', ':', ',', '"', '^', '`', '\'', '.',
    ];
    assert(p@ =~= palette());
    p
}

/// Index into the palette for a brightness level.
pub fn palette_index(level: u8) -> (i: usize)
    ensures
        i == glyph_index(level),
        i < PALETTE_LEN,
{
    let scaled: u32 = (level as u32) * (PALETTE_LEN as u32) / (MAX_LEVEL as u32);
    if scaled < PALETTE_LEN as u32 {
        scaled as usize
    } else {
        PALETTE_LEN - 1
    }
}

/// Glyph for a brightness level.
pub fn brightness_glyph(level: u8) -> (c: char)
    ensures
        c == palette()[glyph_index(level)],
{
    let p = palette_vec();
    let i = palette_index(level);
    p[i]
}

/// The glyph mapping preserves order: a brighter level never maps to an earlier glyph.
pub proof fn lemma_glyph_index_monotonic(a: u8, b: u8)
    requires
        a <= b,
    ensures
        glyph_index(a) <= glyph_index(b),
{
    let pa = (a as int) * (PALETTE_LEN as int);
    let pb = (b as int) * (PALETTE_LEN as int);
    assert(pa <= pb) by (nonlinear_arith)
        requires
            a <= b,
            pa == (a as int) * (PALETTE_LEN as int),
            pb == (b as int) * (PALETTE_LEN as int),
    ;
    vstd::arithmetic::div_mod::lemma_div_is_ordered(pa, pb, MAX_LEVEL as int);
}

/// Each glyph covers three consecutive levels: the index of a level is a third of it,
/// clamped to the last index.
pub proof fn lemma_glyph_index_thirds(level: u8)
    ensures
        glyph_index(level) == if (level as int) / 3 < PALETTE_LEN as int {
            (level as int) / 3
        } else {
            PALETTE_LEN as int - 1
        },
{
    let l = level as int;
    assert(l * 69 / 207 == l / 3) by (nonlinear_arith)
        requires
            0 <= l,
    ;
}

/// Black maps to the first glyph of the palette and white to the last.
pub proof fn lemma_glyph_index_extremes()
    ensures
        glyph_index(0) == 0,
        glyph_index(MAX_LEVEL) == PALETTE_LEN - 1,
{
}

} // verus!
