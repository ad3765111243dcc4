//! Eight-bit-per-channel colors with saturating fixed-point scaling.

use vstd::prelude::*;
use crate::fixed::{SCALE, MUL_LIM, tdiv, clamp_spec};

verus! {

/// A color of three 8-bit channel magnitudes.
#[derive(Clone, Copy, Debug, PartialEq, Eq, Structural)]
pub struct Color {
    pub r: u8,
    pub g: u8,
    pub b: u8,
}

/// A channel scaled by a non-negative fixed-point factor, saturating at
/// the brightest representable value.
pub open spec fn channel_scale_spec(ch: int, s: int) -> int
    recommends
        0 <= ch <= 255,
        s >= 0,
{
    clamp_spec(tdiv(ch * s, SCALE as int), 0, 255)
}

/// The color with every channel scaled by `s`, saturating per channel.
pub open spec fn color_scale_spec(c: Color, s: int) -> Color {
    Color {
        r: channel_scale_spec(c.r as int, s) as u8,
        g: channel_scale_spec(c.g as int, s) as u8,
        b: channel_scale_spec(c.b as int, s) as u8,
    }
}

/// The packed integer a framebuffer stores: red in the third byte, green
/// in the second, blue in the first.
pub open spec fn color_hex_spec(c: Color) -> int {
    (c.r as int) * 0x10000 + (c.g as int) * 0x100 + (c.b as int)
}

impl Color {
    /// Build a color from its channels.
    pub fn new(r: u8, g: u8, b: u8) -> (c: Color)
        ensures
            c == (Color { r, g, b }),
    {
        Color { r, g, b }
    }

    /// Scale every channel by a non-negative fixed-point factor,
    /// saturating at the channel range.
    pub fn scale_fx(self, s: i64) -> (c: Color)
        requires
            0 <= s <= MUL_LIM,
        ensures
            c == color_scale_spec(self, s as int),
    {
        Color {
            r: channel_scale(self.r, s),
            g: channel_scale(self.g, s),
            b: channel_scale(self.b, s),
        }
    }

    /// Pack the channels into one integer for framebuffer storage.
    pub fn to_hex(self) -> (h: u32)
        ensures
            h == color_hex_spec(self),
    {
        (self.r as u32) * 0x10000 + (self.g as u32) * 0x100 + (self.b as u32)
    }
}

/// Scale one channel, saturating into the channel range.
fn channel_scale(ch: u8, s: i64) -> (r: u8)
    requires
        0 <= s <= MUL_LIM,
    ensures
        r == channel_scale_spec(ch as int, s as int),
{
    proof {
        assert(0 <= (ch as int) * (s as int) <= 255 * (MUL_LIM as int)) by (nonlinear_arith)
            requires
                0 <= ch <= 255,
                0 <= s <= MUL_LIM,
        ;
    }
    let p: u64 = (ch as u64) * (s as u64);
    let q: u64 = p / (SCALE as u64);
    if q > 255 {
        255
    } else {
        q as u8
    }
}

} // verus!
