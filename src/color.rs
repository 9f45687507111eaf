//! 24-bit RGB pixel words.
use vstd::prelude::*;

verus! {

/// Number of levels of one 8-bit channel.
pub const CHANNEL_LEVELS: u32 = 256;

/// A channel value that fits in eight bits.
pub open spec fn is_channel(c: int) -> bool {
    0 <= c < CHANNEL_LEVELS
}

/// The pixel word holding red in bits 16..24, green in bits 8..16 and blue
/// in bits 0..8.
pub open spec fn packed(r: int, g: int, b: int) -> int {
    r * 65536 + g * 256 + b
}

/// Packs three 8-bit channels into one pixel word, red highest.
pub fn pack_rgb(r: u32, g: u32, b: u32) -> (p: u32)
    requires
        is_channel(r as int),
        is_channel(g as int),
        is_channel(b as int),
    ensures
        p == packed(r as int, g as int, b as int),
        p < 0x100_0000,
{
    let p = (r << 16u32) | (g << 8u32) | b;
    assert(p == r * 65536 + g * 256 + b && r * 65536 + g * 256 + b < 0x100_0000) by (bit_vector)
        requires
            r < 256,
            g < 256,
            b < 256,
            p == (r << 16u32) | (g << 8u32) | b,
    ;
    p
}

/// The red, green and blue channels of a pixel word, read from bits 16..24,
/// 8..16 and 0..8.
pub open spec fn channels_of(p: int) -> (int, int, int) {
    ((p / 65536) % 256, (p / 256) % 256, p % 256)
}

/// Reads back the red, green and blue channels of a pixel word.
pub fn unpack_rgb(p: u32) -> (c: (u32, u32, u32))
    ensures
        (c.0 as int, c.1 as int, c.2 as int) == channels_of(p as int),
        is_channel(c.0 as int),
        is_channel(c.1 as int),
        is_channel(c.2 as int),
{
    let r = (p >> 16u32) & 0xffu32;
    let g = (p >> 8u32) & 0xffu32;
    let b = p & 0xffu32;
    assert(r == (p / 65536) % 256 && g == (p / 256) % 256 && b == p % 256) by (bit_vector)
        requires
            r == (p >> 16u32) & 0xffu32,
            g == (p >> 8u32) & 0xffu32,
            b == p & 0xffu32,
    ;
    (r, g, b)
}

/// Packing three 8-bit channels and reading them back gives the same three
/// channels: no channel spills into its neighbour.
pub proof fn lemma_pack_unpack(r: int, g: int, b: int)
    requires
        is_channel(r),
        is_channel(g),
        is_channel(b),
    ensures
        channels_of(packed(r, g, b)) == (r, g, b),
{
    let p = packed(r, g, b);
    assert(p / 65536 == r) by (nonlinear_arith)
        requires
            p == r * 65536 + g * 256 + b,
            0 <= r < 256,
            0 <= g < 256,
            0 <= b < 256,
    ;
    assert(p / 256 == r * 256 + g) by (nonlinear_arith)
        requires
            p == r * 65536 + g * 256 + b,
            0 <= r < 256,
            0 <= g < 256,
            0 <= b < 256,
    ;
    assert((r * 256 + g) % 256 == g) by (nonlinear_arith)
        requires
            0 <= g < 256,
            0 <= r,
    ;
    assert(p % 256 == b) by (nonlinear_arith)
        requires
            p == r * 65536 + g * 256 + b,
            0 <= r < 256,
            0 <= g < 256,
            0 <= b < 256,
    ;
}

} // verus!
