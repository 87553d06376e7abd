//! Packed colours: how an amplitude is drawn.

use vstd::prelude::*;
use crate::utils::{ALPHA, I32_CAP_MAX, I32_CAP_MIN};

verus! {

/// The intensity that an amplitude is drawn with: the amplitude without its
/// 22 low bits.
pub open spec fn intensity(x: i32) -> i32 {
    x >> 22u32
}

/// The colour of a real amplitude. A positive intensity fills the two middle
/// channels; any other one puts its size, 255 at most, in the lowest channel.
/// The top byte is always opaque.
pub open spec fn scalar_color(x: i32) -> u32 {
    let val = intensity(x);
    if val > 0 {
        ((val as u32) << 8u32) | ((val as u32) << 16u32) | ALPHA
    } else if val < -255 {
        255u32 | ALPHA
    } else {
        ((-val) as u32) | ALPHA
    }
}

/// Three channels and the opaque top byte in one word: red lowest, then green,
/// then blue.
pub open spec fn packed(r: u32, g: u32, b: u32) -> u32 {
    ALPHA | (b << 16u32) | (g << 8u32) | r
}

/// Values that can be drawn as one packed colour.
pub trait HexColor: Sized {
    /// The colour of the value.
    spec fn color(self, norm_only: bool) -> u32;

    fn to_rgba(self, norm_only: bool) -> (rgba: u32)
        ensures
            rgba == self.color(norm_only),
    ;
}

impl HexColor for i32 {
    open spec fn color(self, norm_only: bool) -> u32 {
        scalar_color(self)
    }

    fn to_rgba(self, norm_only: bool) -> (rgba: u32) {
        let val: i32 = self >> 22u32;
        assert(-512 <= val <= 511) by (bit_vector)
            requires
                val == self >> 22u32,
        ;
        if val > 0 {
            let res: u32 = val as u32;
            (res << 8u32) | (res << 16u32) | ALPHA
        } else if val < -255 {
            255u32 | ALPHA
        } else {
            ((-val) as u32) | ALPHA
        }
    }
}

/// Packs three channels, as a colour wheel gives them, into one opaque colour.
/// A channel above 255 spills into the bytes above it.
pub fn pack_rgba(r: u32, g: u32, b: u32) -> (rgba: u32)
    ensures
        rgba == packed(r, g, b),
{
    ALPHA | (b << 16u32) | (g << 8u32) | r
}

/// The colour of a real amplitude is opaque, so it is never the colour of a
/// wall, which is zero.
pub proof fn scalar_color_opaque(x: i32)
    ensures
        scalar_color(x) & ALPHA == ALPHA,
        scalar_color(x) != 0,
{
    let val = intensity(x);
    let c = scalar_color(x);
    if val > 0 {
        let res = val as u32;
        assert((((res << 8u32) | (res << 16u32) | 0xFF00_0000u32) & 0xFF00_0000u32)
            == 0xFF00_0000u32) by (bit_vector);
    } else if val < -255 {
        assert(((255u32 | 0xFF00_0000u32) & 0xFF00_0000u32) == 0xFF00_0000u32) by (bit_vector);
    } else {
        let m = (-val) as u32;
        assert(((m | 0xFF00_0000u32) & 0xFF00_0000u32) == 0xFF00_0000u32) by (bit_vector);
    }
    assert(c & 0xFF00_0000u32 == 0xFF00_0000u32 ==> c != 0) by (bit_vector);
}

/// The colour of an amplitude of the capped range, channel by channel: with
/// `s` the amplitude divided by 2^22 and rounded down, a positive `s` gives
/// green and blue `s` and red zero; any other `s` gives red `-s`, 255 at
/// most, and green and blue zero.
pub proof fn scalar_color_channels(x: i32)
    requires
        I32_CAP_MIN <= x <= I32_CAP_MAX,
    ensures
        intensity(x) == x as int / 0x40_0000,
        -256 <= intensity(x) <= 255,
        intensity(x) > 0 ==> scalar_color(x) == 0xFF00_0000 + 0x1_0100 * intensity(x),
        -255 <= intensity(x) <= 0 ==> scalar_color(x) == 0xFF00_0000 - intensity(x),
        intensity(x) == -256 ==> scalar_color(x) == 0xFF00_00FF,
{
    let val = intensity(x);
    assert(val == x >> 22u32);
    assert(-256 <= val <= 255 && val == x / 0x40_0000) by (bit_vector)
        requires
            val == x >> 22u32,
            -0x4000_0000 <= x <= 0x3fff_ffff,
    ;
    if val > 0 {
        let res = val as u32;
        assert(((res << 8u32) | (res << 16u32) | 0xFF00_0000u32) == 0xFF00_0000u32 + 0x1_0100u32
            * res) by (bit_vector)
            requires
                0 < res <= 255,
        ;
    } else if val < -255 {
        assert(255u32 | 0xFF00_0000u32 == 0xFF00_00FFu32) by (bit_vector);
    } else {
        let m = (-val) as u32;
        assert((m | 0xFF00_0000u32) == 0xFF00_0000u32 + m) by (bit_vector)
            requires
                m <= 255,
        ;
    }
}

/// Channels of one byte each come back out of the packed colour, and the
/// colour is opaque.
pub proof fn packed_channels(r: u32, g: u32, b: u32)
    requires
        r <= 255,
        g <= 255,
        b <= 255,
    ensures
        packed(r, g, b) == 0xFF00_0000 + 0x1_0000 * b + 0x100 * g + r,
        packed(r, g, b) & 0xFF == r,
        (packed(r, g, b) >> 8u32) & 0xFF == g,
        (packed(r, g, b) >> 16u32) & 0xFF == b,
        packed(r, g, b) >> 24u32 == 0xFF,
{
    let p = 0xFF00_0000u32 | (b << 16u32) | (g << 8u32) | r;
    assert(p == packed(r, g, b));
    assert(p == 0xFF00_0000u32 + 0x1_0000u32 * b + 0x100u32 * g + r && p & 0xFF == r && (p >> 8u32)
        & 0xFF == g && (p >> 16u32) & 0xFF == b && p >> 24u32 == 0xFF) by (bit_vector)
        requires
            p == 0xFF00_0000u32 | (b << 16u32) | (g << 8u32) | r,
            r <= 255,
            g <= 255,
            b <= 255,
    ;
}

} // verus!
