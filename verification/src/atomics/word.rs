//! How a pair of 16-bit coordinates shares one 32-bit word.

use vstd::prelude::*;

verus! {

/// The word that holds the coordinates `x` (low half) and `y` (high half).
pub open spec fn spec_coord_word(x: u16, y: u16) -> u32 {
    (x + y * 0x10000) as u32
}

/// The coordinates held by a word: its low half and its high half.
pub open spec fn spec_word_coord(w: u32) -> (u16, u16) {
    ((w % 0x10000) as u16, (w / 0x10000) as u16)
}

/// Packs two coordinates into one word.
pub fn coord_word(x: u16, y: u16) -> (w: u32)
    ensures
        w == spec_coord_word(x, y),
        w == x + y * 0x10000,
{
    (x as u32) + (y as u32) * 0x10000
}

/// Unpacks the two coordinates of a word.
pub fn word_coord(w: u32) -> (c: (u16, u16))
    ensures
        c == spec_word_coord(w),
{
    ((w % 0x10000) as u16, (w / 0x10000) as u16)
}

/// Unpacking a packed pair gives the pair back.
pub proof fn law_coord_word_roundtrip(x: u16, y: u16)
    ensures
        spec_word_coord(spec_coord_word(x, y)) == (x, y),
{
    let w: int = x + y * 0x10000;
    assert(w % 0x10000 == x && w / 0x10000 == y) by (nonlinear_arith)
        requires
            w == x + y * 0x10000,
            0 <= x < 0x10000,
            0 <= y < 0x10000,
    ;
}

/// Packing the unpacked pair of a word gives the word back.
pub proof fn law_word_coord_roundtrip(w: u32)
    ensures
        spec_coord_word(spec_word_coord(w).0, spec_word_coord(w).1) == w,
{
    assert(w % 0x10000 + (w / 0x10000) * 0x10000 == w) by (nonlinear_arith);
    assert(w / 0x10000 < 0x10000) by (nonlinear_arith)
        requires
            w < 0x1_0000_0000,
    ;
}

} // verus!
