//! Packed platform color values and their decoding.
//!
//! The platform pixel read yields a 32-bit packed color whose low byte is
//! red, next byte green, next byte blue. The all-ones value is an in-band
//! sentinel for "invalid sample" and must be recognised before unpacking:
//! unpacking it naively would yield white instead of the neutral-gray
//! fallback the caller is promised.

use vstd::prelude::*;

verus! {

/// In-band sentinel a platform pixel read uses for an invalid or
/// out-of-bounds sample.
pub const INVALID_SAMPLE: u32 = 0xFFFF_FFFF;

/// An 8-bit-per-channel color. Each channel is a byte, so the invariant
/// that every channel lies in `[0, 255]` is carried by the types.
#[derive(Clone, Copy, Debug, PartialEq, Eq, Structural)]
pub struct RgbColor {
    pub r: u8,
    pub g: u8,
    pub b: u8,
}

/// The red channel of a packed color: its low byte.
pub open spec fn red_of(packed: u32) -> int {
    (packed & 0xFF) as int
}

/// The green channel of a packed color: its second byte.
pub open spec fn green_of(packed: u32) -> int {
    ((packed >> 8) & 0xFF) as int
}

/// The blue channel of a packed color: its third byte.
pub open spec fn blue_of(packed: u32) -> int {
    ((packed >> 16) & 0xFF) as int
}

/// The color a packed value unpacks to, channel by channel.
pub open spec fn spec_unpack(packed: u32) -> RgbColor {
    RgbColor { r: red_of(packed) as u8, g: green_of(packed) as u8, b: blue_of(packed) as u8 }
}

/// The neutral-gray fallback returned for an invalid sample and on
/// platforms without pixel-query support.
pub open spec fn neutral_gray() -> RgbColor {
    RgbColor { r: 128, g: 128, b: 128 }
}

/// What a raw platform sample decodes to: the sentinel maps to neutral
/// gray, everything else unpacks channel by channel.
pub open spec fn spec_decode(packed: u32) -> RgbColor {
    if packed == INVALID_SAMPLE {
        neutral_gray()
    } else {
        spec_unpack(packed)
    }
}

/// Unpack a packed color value: low byte red, then green, then blue.
pub fn unpack(packed: u32) -> (c: RgbColor)
    ensures
        c == spec_unpack(packed),
        c.r == red_of(packed),
        c.g == green_of(packed),
        c.b == blue_of(packed),
{
    proof {
        lemma_channels_in_range(packed);
    }
    let r = (packed & 0xFF) as u8;
    let g = ((packed >> 8) & 0xFF) as u8;
    let b = ((packed >> 16) & 0xFF) as u8;
    RgbColor { r, g, b }
}

/// Translate a raw platform sample to a domain color: the invalid-sample
/// sentinel is checked before any unpacking and yields neutral gray.
pub fn decode_sample(packed: u32) -> (c: RgbColor)
    ensures
        c == spec_decode(packed),
        packed == INVALID_SAMPLE ==> c == neutral_gray(),
        packed != INVALID_SAMPLE ==> c == spec_unpack(packed),
{
    if packed == INVALID_SAMPLE {
        return RgbColor { r: 128, g: 128, b: 128 };
    }
    unpack(packed)
}

/// Every channel that unpacking yields lies in the byte range; no decode
/// can produce an out-of-range channel value.
pub proof fn lemma_channels_in_range(packed: u32)
    ensures
        0 <= red_of(packed) <= 255,
        0 <= green_of(packed) <= 255,
        0 <= blue_of(packed) <= 255,
{
    assert(packed & 0xFF < 256) by (bit_vector);
    assert((packed >> 8) & 0xFF < 256) by (bit_vector);
    assert((packed >> 16) & 0xFF < 256) by (bit_vector);
}

/// The channel extractions read the first three bytes of the packed value
/// from the low end: red is the lowest byte, green the second, blue the
/// third.
pub proof fn lemma_channel_order(packed: u32)
    ensures
        red_of(packed) == packed % 256,
        green_of(packed) == (packed / 256) % 256,
        blue_of(packed) == (packed / 65536) % 256,
{
    assert(packed & 0xFF == packed % 256) by (bit_vector);
    assert((packed >> 8) & 0xFF == (packed / 256) % 256) by (bit_vector);
    assert((packed >> 16) & 0xFF == (packed / 65536) % 256) by (bit_vector);
}

/// Decoding the sentinel yields exactly neutral gray, which differs from
/// the white that a naive channel unpack of the sentinel would produce.
pub proof fn lemma_sentinel_decodes_to_gray()
    ensures
        spec_decode(INVALID_SAMPLE) == neutral_gray(),
        spec_unpack(INVALID_SAMPLE) == (RgbColor { r: 255, g: 255, b: 255 }),
        spec_decode(INVALID_SAMPLE) != spec_unpack(INVALID_SAMPLE),
{
    assert(0xFFFF_FFFFu32 & 0xFF == 0xFF) by (bit_vector);
    assert((0xFFFF_FFFFu32 >> 8) & 0xFF == 0xFF) by (bit_vector);
    assert((0xFFFF_FFFFu32 >> 16) & 0xFF == 0xFF) by (bit_vector);
}

} // verus!
