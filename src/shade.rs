//! Brightness palette: turns a quantised intensity level into a glyph.
use vstd::prelude::*;

verus! {

/// Number of glyphs in the brightness palette.
pub const PALETTE_LEN: usize = 14;

/// The palette, from dimmest to brightest.
pub open spec fn palette() -> Seq<char> {
    seq!['.', ',', ':', ';', '*', '+', 'o', 'x', '%', '&', '#', '$', '@', '9']
}

/// The palette slot that a level selects: the level itself, clamped into
/// `[0, PALETTE_LEN - 1]`.
pub open spec fn palette_index(level: int) -> int {
    if level < 0 {
        0
    } else if level >= PALETTE_LEN as int {
        PALETTE_LEN as int - 1
    } else {
        level
    }
}

/// The glyph for a quantised intensity level (`floor(intensity * 14)`).
/// Levels outside the palette are clamped to its ends rather than rejected.
pub fn palette_symbol(level: i64) -> (c: char)
    ensures
        c == palette()[palette_index(level as int)],
{
    let idx: usize = if level < 0 {
        0
    } else if level >= PALETTE_LEN as i64 {
        PALETTE_LEN - 1
    } else {
        level as usize
    };
    let glyphs: [char; 14] = ['.', ',', ':', ';', '*', '+', 'o', 'x', '%', '&', '#', '$', '@', '9'];
    assert(glyphs@ == palette());
    glyphs[idx]
}

/// Brighter levels never select a dimmer glyph, and every level selects a slot
/// inside the palette.
pub proof fn lemma_palette_monotone(lo: int, hi: int)
    requires
        lo <= hi,
    ensures
        0 <= palette_index(lo) <= palette_index(hi) < PALETTE_LEN as int,
{
}

} // verus!
