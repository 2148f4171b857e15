//! The built-in hexadecimal font.

use vstd::prelude::*;

verus! {

/// Bytes of one glyph: five rows, of which the high four bits are drawn.
pub const GLYPH_SIZE: usize = 5;

/// Bytes of the whole font: sixteen glyphs.
pub const FONTSET_SIZE: usize = 80;

/// Glyphs of the digits `0` to `F`, in that order.
pub const FONTSET: [u8; FONTSET_SIZE] = [
    0xF0, 0x90, 0x90, 0x90, 0xF0,
    0x20, 0x60, 0x20, 0x20, 0x70,
    0xF0, 0x10, 0xF0, 0x80, 0xF0,
    0xF0, 0x10, 0xF0, 0x10, 0xF0,
    0x90, 0x90, 0xF0, 0x10, 0x10,
    0xF0, 0x80, 0xF0, 0x10, 0xF0,
    0xF0, 0x80, 0xF0, 0x90, 0xF0,
    0xF0, 0x10, 0x20, 0x40, 0x40,
    0xF0, 0x90, 0xF0, 0x90, 0xF0,
    0xF0, 0x90, 0xF0, 0x10, 0xF0,
    0xF0, 0x90, 0xF0, 0x90, 0x90,
    0xE0, 0x90, 0xE0, 0x90, 0xE0,
    0xF0, 0x80, 0x80, 0x80, 0xF0,
    0xE0, 0x90, 0x90, 0x90, 0xE0,
    0xF0, 0x80, 0xF0, 0x80, 0xF0,
    0xF0, 0x80, 0xF0, 0x80, 0x80,
];

/// The font as a sequence of bytes: what memory holds at addresses `0` to `79`.
pub open spec fn font_table() -> Seq<u8> {
    FONTSET@
}

/// Memory offset of the glyph for a hexadecimal digit.
pub open spec fn glyph_offset(digit: int) -> int {
    digit * GLYPH_SIZE as int
}

/// The glyph of each of the sixteen digits lies inside the font, and the
/// glyphs of two different digits do not overlap.
pub proof fn lemma_glyph_in_font(digit: int, other: int)
    requires
        0 <= digit < 16,
        0 <= other < 16,
    ensures
        font_table().len() == FONTSET_SIZE,
        0 <= glyph_offset(digit),
        glyph_offset(digit) + GLYPH_SIZE <= FONTSET_SIZE,
        digit < other ==> glyph_offset(digit) + GLYPH_SIZE <= glyph_offset(other),
{
}

} // verus!
