//! The built-in hexadecimal font.

use vstd::prelude::*;

verus! {

/// Number of bytes of one glyph: five rows of eight cells, of which the
/// left four are used.
pub const GLYPH_BYTES: u16 = 5;

/// Number of bytes of the whole font.
pub const FONT_BYTES: usize = 80;

/// The sixteen glyphs for the digits `0` to `F`, five bytes each, in the
/// order of the digits.
pub const FONT: [u8; 80] = [
    0xF0, 0x90, 0x90, 0x90, 0xF0,
    0x20, 0x60, 0x20, 0x20, 0x70,
    0xF0, 0x10, 0xF0, 0x80, 0xF0,
    0xF0, 0x10, 0xF0, 0x10, 0xF0,
    0x90, 0x90, 0xF0, 0x10, 0x10,
    0xF0, 0x80, 0xF0, 0x10, 0xF0,
    0xF0, 0x80, 0xF0, 0x90, 0xF0,
    0xF0, 0x10, 0x20, 0x40, 0x40,
    0xF0, 0x90, 0xF0, 0x90, 0xF0,
    0xF0, 0x90, 0xF0, 0x10, 0xF0,
    0xF0, 0x90, 0xF0, 0x90, 0x90,
    0xE0, 0x90, 0xE0, 0x90, 0xE0,
    0xF0, 0x80, 0x80, 0x80, 0xF0,
    0xE0, 0x90, 0x90, 0x90, 0xE0,
    0xF0, 0x80, 0xF0, 0x80, 0xF0,
    0xF0, 0x80, 0xF0, 0x80, 0x80,
];

/// Address of the glyph for the hexadecimal digit `digit % 16`.
pub open spec fn glyph_address(digit: u8) -> int {
    (digit as int % 16) * 5
}

} // verus!
