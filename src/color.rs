//! Packing of 8-bit color channels into a 24-bit RGB pixel.
use vstd::prelude::*;

verus! {

/// The packed pixel `(r << 16) | (g << 8) | b`, as a number.
pub open spec fn packed_spec(r: u8, g: u8, b: u8) -> u32 {
    (r as int * 0x1_0000 + g as int * 0x100 + b as int) as u32
}

/// Red, green and blue channel of a packed pixel.
pub open spec fn red_of(p: u32) -> u8 {
    ((p as int / 0x1_0000) % 0x100) as u8
}

pub open spec fn green_of(p: u32) -> u8 {
    ((p as int / 0x100) % 0x100) as u8
}

pub open spec fn blue_of(p: u32) -> u8 {
    (p as int % 0x100) as u8
}

/// Packs three channels into one pixel, red in bits 16..24, green in bits
/// 8..16 and blue in bits 0..8; bits 24 and up stay clear.
pub fn pack_rgb(r: u8, g: u8, b: u8) -> (p: u32)
    ensures
        p == packed_spec(r, g, b),
        p < 0x100_0000,
        red_of(p) == r,
        green_of(p) == g,
        blue_of(p) == b,
{
    let (r32, g32, b32) = (r as u32, g as u32, b as u32);
    let p = (r32 << 16) | (g32 << 8) | b32;
    assert(p == r32 * 0x1_0000 + g32 * 0x100 + b32) by (bit_vector)
        requires
            r32 < 0x100,
            g32 < 0x100,
            b32 < 0x100,
            p == (r32 << 16) | (g32 << 8) | b32,
    ;
    p
}

} // verus!
