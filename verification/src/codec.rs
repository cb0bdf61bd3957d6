//! Pixel/palette codec: maps an RGB sample to one of seven palette indices
//! and packs two 4-bit indices into one byte (high nibble first).

use vstd::prelude::*;

verus! {

/// Largest legal palette index: exactly seven colors are supported.
pub const MAX_PALETTE_INDEX: u8 = 6;

/// One of the seven colors the panel can show.
#[derive(Clone, Copy, Debug, PartialEq, Eq, Structural)]
pub enum Color {
    Black,
    White,
    Green,
    Blue,
    Red,
    Yellow,
    Orange,
}

impl Color {
    /// The palette index bound to this color.
    pub open spec fn spec_index(self) -> u8 {
        match self {
            Color::Black => 0,
            Color::White => 1,
            Color::Green => 2,
            Color::Blue => 3,
            Color::Red => 4,
            Color::Yellow => 5,
            Color::Orange => 6,
        }
    }

    /// Returns the palette index bound to this color.
    pub fn to_byte(self) -> (r: u8)
        ensures
            r == self.spec_index(),
            r <= MAX_PALETTE_INDEX,
    {
        match self {
            Color::Black => 0x0,
            Color::White => 0x1,
            Color::Green => 0x2,
            Color::Blue => 0x3,
            Color::Red => 0x4,
            Color::Yellow => 0x5,
            Color::Orange => 0x6,
        }
    }
}

/// The palette index an RGB sample maps to: each of the seven reference
/// triples maps to its color's index, and every other triple maps to the
/// white index. The fallback is a deliberate lossy policy, not an error.
pub open spec fn spec_rgb_index(r: u8, g: u8, b: u8) -> u8 {
    if r == 0 && g == 0 && b == 0 {
        0
    } else if r == 255 && g == 255 && b == 255 {
        1
    } else if r == 0 && g == 255 && b == 0 {
        2
    } else if r == 0 && g == 0 && b == 255 {
        3
    } else if r == 255 && g == 0 && b == 0 {
        4
    } else if r == 255 && g == 255 && b == 0 {
        5
    } else if r == 255 && g == 128 && b == 0 {
        6
    } else {
        1
    }
}

/// Converts RGB values to the display's color index.
///
/// Only the seven exact reference triples are recognized; any other triple
/// maps to the white index.
pub fn rgb_to_color_index(r: u8, g: u8, b: u8) -> (idx: u8)
    ensures
        idx == spec_rgb_index(r, g, b),
        idx <= MAX_PALETTE_INDEX,
{
    match (r, g, b) {
        (0, 0, 0) => 0x0,
        (255, 255, 255) => 0x1,
        (0, 255, 0) => 0x2,
        (0, 0, 255) => 0x3,
        (255, 0, 0) => 0x4,
        (255, 255, 0) => 0x5,
        (255, 128, 0) => 0x6,
        _ => 0x1,
    }
}

/// The byte that packs palette index `hi` into the high nibble (the even
/// pixel) and `lo` into the low nibble (the odd pixel).
pub open spec fn spec_pack(hi: u8, lo: u8) -> u8
    recommends
        hi < 16,
        lo < 16,
{
    (hi * 16 + lo) as u8
}

/// The high nibble of a packed byte: the even pixel's palette index.
pub open spec fn spec_unpack_hi(x: u8) -> u8 {
    x / 16
}

/// The low nibble of a packed byte: the odd pixel's palette index.
pub open spec fn spec_unpack_lo(x: u8) -> u8 {
    x % 16
}

/// Packs two palette indices into one byte, high nibble first.
pub fn pack_indices(hi: u8, lo: u8) -> (r: u8)
    requires
        hi <= MAX_PALETTE_INDEX,
        lo <= MAX_PALETTE_INDEX,
    ensures
        r == spec_pack(hi, lo),
        spec_unpack_hi(r) == hi,
        spec_unpack_lo(r) == lo,
{
    let r = (hi << 4) | lo;
    assert(((hi << 4) | lo) == hi * 16 + lo) by (bit_vector)
        requires
            hi <= 6 && lo <= 6,
    ;
    r
}

/// Unpacks a byte into its two palette indices, high nibble first.
pub fn unpack_byte(x: u8) -> (r: (u8, u8))
    ensures
        r.0 == spec_unpack_hi(x),
        r.1 == spec_unpack_lo(x),
        r.0 < 16,
        r.1 < 16,
{
    let hi = x >> 4;
    let lo = x & 0x0F;
    assert((x >> 4) == x / 16 && (x & 0x0F) == x % 16 && (x >> 4) < 16) by (bit_vector);
    (hi, lo)
}

/// Packing then unpacking is the identity on pairs of palette indices:
/// for any `hi, lo` in `[0, 6]`, the byte `(hi << 4) | lo` unpacks back
/// to exactly `(hi, lo)`.
pub proof fn lemma_pack_unpack_roundtrip(hi: u8, lo: u8)
    requires
        hi <= MAX_PALETTE_INDEX,
        lo <= MAX_PALETTE_INDEX,
    ensures
        spec_unpack_hi(spec_pack(hi, lo)) == hi,
        spec_unpack_lo(spec_pack(hi, lo)) == lo,
{
    assert(spec_pack(hi, lo) == hi * 16 + lo);
}

} // verus!
