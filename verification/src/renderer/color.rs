//! Decoding of colors written as `RRGGBBAA` hexadecimal numbers.

use vstd::prelude::*;

verus! {

/// The four 8-bit channels of a color written in the `RRGGBBAA` format.
///
/// A channel value of 255 stands for full intensity (or full opacity for
/// alpha); dividing by 255 gives the channel as a fraction.
#[derive(Clone, Copy, Debug, PartialEq, Eq, Structural)]
pub struct HexChannels {
    /// Red channel, the highest byte.
    pub r: u8,
    /// Green channel, the second byte.
    pub g: u8,
    /// Blue channel, the third byte.
    pub b: u8,
    /// Alpha channel, the lowest byte.
    pub a: u8,
}

/// The channels that `RRGGBBAA` encodes: red is the highest byte, alpha the
/// lowest.
pub open spec fn spec_hex_channels(value: u32) -> HexChannels {
    HexChannels {
        r: (value / 0x1000000) as u8,
        g: (value / 0x10000 % 0x100) as u8,
        b: (value / 0x100 % 0x100) as u8,
        a: (value % 0x100) as u8,
    }
}

/// The number that four channels spell in the `RRGGBBAA` format.
pub open spec fn spec_pack(c: HexChannels) -> int {
    c.r as int * 16777216 + c.g as int * 65536 + c.b as int * 256 + c.a as int
}

/// Splits a color value in the `RRGGBBAA` format into its channels.
pub fn hex_channels(value: u32) -> (c: HexChannels)
    ensures
        c == spec_hex_channels(value),
{
    let r = ((value >> 24u32) & 0xFFu32) as u8;
    let g = ((value >> 16u32) & 0xFFu32) as u8;
    let b = ((value >> 8u32) & 0xFFu32) as u8;
    let a = (value & 0xFFu32) as u8;
    proof {
        assert(((value >> 24u32) & 0xFFu32) == (value / 16777216) % 256) by (bit_vector);
        assert(((value >> 16u32) & 0xFFu32) == (value / 65536) % 256) by (bit_vector);
        assert(((value >> 8u32) & 0xFFu32) == (value / 256) % 256) by (bit_vector);
        assert((value & 0xFFu32) == value % 256) by (bit_vector);
    }
    HexChannels { r, g, b, a }
}

/// Decoding loses nothing: the channels of a value spell that value again.
pub proof fn lemma_hex_channels_recompose(value: u32)
    ensures
        spec_pack(spec_hex_channels(value)) == value,
{
    assert(((value / 16777216) % 256) * 16777216 + ((value / 65536) % 256) * 65536
        + ((value / 256) % 256) * 256 + value % 256 == value) by (bit_vector);
}

/// Every choice of channels is decoded from exactly one value: the one that
/// the channels spell.
pub proof fn lemma_hex_channels_of_pack(c: HexChannels)
    ensures
        0 <= spec_pack(c) <= u32::MAX,
        spec_hex_channels(spec_pack(c) as u32) == c,
{
    let (r, g, b, a) = (c.r as int, c.g as int, c.b as int, c.a as int);
    let p = spec_pack(c);
    assert(p / 16777216 == r && (p / 65536) % 256 == g && (p / 256) % 256 == b && p % 256 == a)
        by (nonlinear_arith)
        requires
            0 <= r < 256, 0 <= g < 256, 0 <= b < 256, 0 <= a < 256,
            p == r * 16777216 + g * 65536 + b * 256 + a,
    ;
}

} // verus!
