//! The built-in hexadecimal font: sixteen glyphs of five bytes each, held at
//! the bottom of memory.

use vstd::prelude::*;

verus! {

/// Number of bytes in one glyph.
pub const GLYPH_BYTES: usize = 5;

/// Number of bytes in the whole font.
pub const FONT_BYTES: usize = 80;

/// The font, glyph `0` first. Each byte is one row of a glyph, the leftmost
/// pixel in the top bit; only the upper four bits are used.
pub const FONT: [u8; 80] = [
    0xF0, 0x90, 0x90, 0x90, 0xF0,
    0x20, 0x60, 0x20, 0x20, 0x70,
    0xF0, 0x10, 0xF0, 0x80, 0xF0,
    0xF0, 0x10, 0xF0, 0x10, 0xF0,
    0x90, 0x90, 0xF0, 0x10, 0x10,
    0xF0, 0x80, 0xF0, 0x10, 0xF0,
    0xF0, 0x80, 0xF0, 0x90, 0xF0,
    0xF0, 0x10, 0x20, 0x40, 0x40,
    0xF0, 0x90, 0xF0, 0x90, 0xF0,
    0xF0, 0x90, 0xF0, 0x10, 0xF0,
    0xF0, 0x90, 0xF0, 0x90, 0x90,
    0xE0, 0x90, 0xE0, 0x90, 0xE0,
    0xF0, 0x80, 0x80, 0x80, 0xF0,
    0xE0, 0x90, 0x90, 0x90, 0xE0,
    0xF0, 0x80, 0xF0, 0x80, 0xF0,
    0xF0, 0x80, 0xF0, 0x80, 0x80,
];

/// The font as a sequence of bytes.
pub open spec fn font_table() -> Seq<u8> {
    FONT@
}

/// The five rows of the glyph for hexadecimal digit `digit`.
pub open spec fn glyph(digit: int) -> Seq<u8> {
    font_table().subrange(5 * digit, 5 * digit + 5)
}

/// Byte `offset` of the font.
pub fn font_byte(offset: usize) -> (b: u8)
    requires
        offset < 80,
    ensures
        b == font_table()[offset as int],
{
    FONT[offset]
}

} // verus!
