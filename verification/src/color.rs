//! Colors with fixed-point channels.
//!
//! A channel holds a normalized value: 0 raw is black / transparent and
//! 65536 raw is full intensity. Channel arithmetic is componentwise and
//! saturating; values may leave `[0, 1]` transiently and are clamped when
//! converted to 8-bit form.

use crate::fixed::{fx_add, fx_clamp, fx_div, fx_mul, fx_sub, Fx, FX_ONE};
use crate::text::{hex_byte_str, push_hex_byte};
use vstd::prelude::*;
use vstd::string::StringExecFns;

verus! {

/// An RGBA color; each channel is a fixed-point value with 1.0 = 65536 raw.
#[derive(Clone, Copy, PartialEq, Eq, Structural, Debug)]
pub struct Color {
    pub r: Fx,
    pub g: Fx,
    pub b: Fx,
    pub a: Fx,
}

impl Color {
    /// A color from its four channels.
    #[verifier::allow_in_spec]
    pub fn new(r: Fx, g: Fx, b: Fx, a: Fx) -> Color
        returns
            (Color { r, g, b, a }),
    {
        Color { r, g, b, a }
    }

    /// Opaque white.
    #[verifier::allow_in_spec]
    pub fn white() -> Color
        returns
            (Color { r: FX_ONE, g: FX_ONE, b: FX_ONE, a: FX_ONE }),
    {
        Color { r: FX_ONE, g: FX_ONE, b: FX_ONE, a: FX_ONE }
    }

    /// Opaque black.
    #[verifier::allow_in_spec]
    pub fn black() -> Color
        returns
            (Color { r: 0, g: 0, b: 0, a: FX_ONE }),
    {
        Color { r: 0, g: 0, b: 0, a: FX_ONE }
    }

    /// Fully transparent black.
    #[verifier::allow_in_spec]
    pub fn transparent() -> Color
        returns
            (Color { r: 0, g: 0, b: 0, a: 0 }),
    {
        Color { r: 0, g: 0, b: 0, a: 0 }
    }

    /// Componentwise saturating sum.
    #[verifier::allow_in_spec]
    pub fn plus(self, o: Color) -> Color
        returns
            (Color {
                r: fx_add(self.r, o.r),
                g: fx_add(self.g, o.g),
                b: fx_add(self.b, o.b),
                a: fx_add(self.a, o.a),
            }),
    {
        Color {
            r: fx_add(self.r, o.r),
            g: fx_add(self.g, o.g),
            b: fx_add(self.b, o.b),
            a: fx_add(self.a, o.a),
        }
    }

    /// Componentwise saturating difference.
    pub fn minus(self, o: Color) -> (c: Color)
        ensures
            c.r == fx_sub(self.r, o.r),
            c.g == fx_sub(self.g, o.g),
            c.b == fx_sub(self.b, o.b),
            c.a == fx_sub(self.a, o.a),
    {
        Color {
            r: fx_sub(self.r, o.r),
            g: fx_sub(self.g, o.g),
            b: fx_sub(self.b, o.b),
            a: fx_sub(self.a, o.a),
        }
    }

    /// Componentwise product.
    pub fn times(self, o: Color) -> (c: Color)
        ensures
            c.r == crate::fixed::fx_mul_spec(self.r as int, o.r as int),
            c.g == crate::fixed::fx_mul_spec(self.g as int, o.g as int),
            c.b == crate::fixed::fx_mul_spec(self.b as int, o.b as int),
            c.a == crate::fixed::fx_mul_spec(self.a as int, o.a as int),
    {
        Color {
            r: fx_mul(self.r, o.r),
            g: fx_mul(self.g, o.g),
            b: fx_mul(self.b, o.b),
            a: fx_mul(self.a, o.a),
        }
    }

    /// All four channels scaled by a fixed-point factor.
    pub fn scaled(self, k: Fx) -> (c: Color)
        ensures
            c.r == crate::fixed::fx_mul_spec(self.r as int, k as int),
            c.g == crate::fixed::fx_mul_spec(self.g as int, k as int),
            c.b == crate::fixed::fx_mul_spec(self.b as int, k as int),
            c.a == crate::fixed::fx_mul_spec(self.a as int, k as int),
    {
        Color {
            r: fx_mul(self.r, k),
            g: fx_mul(self.g, k),
            b: fx_mul(self.b, k),
            a: fx_mul(self.a, k),
        }
    }

    /// All four channels divided by a fixed-point factor; a zero factor
    /// saturates channelwise by sign.
    pub fn divided(self, k: Fx) -> (c: Color)
        ensures
            c == (Color {
                r: fx_div(self.r, k),
                g: fx_div(self.g, k),
                b: fx_div(self.b, k),
                a: fx_div(self.a, k),
            }),
    {
        Color {
            r: fx_div(self.r, k),
            g: fx_div(self.g, k),
            b: fx_div(self.b, k),
            a: fx_div(self.a, k),
        }
    }

    /// Componentwise quotient.
    pub fn ratio(self, o: Color) -> (c: Color)
        ensures
            c == (Color {
                r: fx_div(self.r, o.r),
                g: fx_div(self.g, o.g),
                b: fx_div(self.b, o.b),
                a: fx_div(self.a, o.a),
            }),
    {
        Color {
            r: fx_div(self.r, o.r),
            g: fx_div(self.g, o.g),
            b: fx_div(self.b, o.b),
            a: fx_div(self.a, o.a),
        }
    }

    /// The same color with another alpha.
    #[verifier::allow_in_spec]
    pub fn with_alpha(self, a: Fx) -> Color
        returns
            (Color { r: self.r, g: self.g, b: self.b, a }),
    {
        Color { r: self.r, g: self.g, b: self.b, a }
    }

    /// The mean of the color channels: `(r + g + b) / 3`.
    #[verifier::allow_in_spec]
    pub fn mean_rgb(self) -> Fx
        returns
            (fx_div(fx_add(fx_add(self.r, self.g), self.b), 196608) as i64),
    {
        fx_div(fx_add(fx_add(self.r, self.g), self.b), 196608)
    }

    /// The perceived value of the color: the channel mean weighted by alpha.
    #[verifier::allow_in_spec]
    pub fn value(self) -> Fx
        returns
            (fx_mul(self.mean_rgb(), self.a) as i64),
    {
        fx_mul(self.mean_rgb(), self.a)
    }

    /// The channel as an 8-bit value, clamped to `[0, 1]` and truncated.
    #[verifier::allow_in_spec]
    pub fn channel_to_8bit(c: Fx) -> u8
        returns
            (to_8bit(c as int) as u8),
    {
        let k: i64 = fx_clamp(c, 0, FX_ONE);
        (k * 255 / 65536) as u8
    }

    /// A channel from an 8-bit value: the least fixed-point value whose
    /// truncation back to 8 bits restores the input.
    #[verifier::allow_in_spec]
    pub fn channel_from_8bit(v: u8) -> Fx
        returns
            (from_8bit(v as int) as i64),
    {
        ((v as i64) * 65536 + 254) / 255
    }

    /// The color of an 8-bit RGBA pixel.
    #[verifier::allow_in_spec]
    pub fn from_rgba8(r: u8, g: u8, b: u8, a: u8) -> Color
        returns
            (Color {
                r: from_8bit(r as int) as i64,
                g: from_8bit(g as int) as i64,
                b: from_8bit(b as int) as i64,
                a: from_8bit(a as int) as i64,
            }),
    {
        Color {
            r: Color::channel_from_8bit(r),
            g: Color::channel_from_8bit(g),
            b: Color::channel_from_8bit(b),
            a: Color::channel_from_8bit(a),
        }
    }

    /// The color as `#RRGGBB`, or `#RRGGBBAA` with `include_alpha`.
    pub fn as_hex(self, include_alpha: bool) -> (r: String)
        ensures
            r@ == hex_str(self, include_alpha),
    {
        let mut out = String::new();
        self.push_hex(include_alpha, &mut out);
        out
    }

    /// Appends the color as `#RRGGBB`, or `#RRGGBBAA` with `include_alpha`.
    pub fn push_hex(self, include_alpha: bool, out: &mut String)
        ensures
            final(out)@ == old(out)@ + hex_str(self, include_alpha),
    {
        out.append("#");
        push_hex_byte(out, Color::channel_to_8bit(self.r));
        push_hex_byte(out, Color::channel_to_8bit(self.g));
        push_hex_byte(out, Color::channel_to_8bit(self.b));
        if include_alpha {
            push_hex_byte(out, Color::channel_to_8bit(self.a));
        }
    }
}

/// The 8-bit value of a channel: clamped to `[0, 1]`, scaled and truncated.
pub open spec fn to_8bit(c: int) -> int {
    let k = if c < 0 {
        0
    } else if c > FX_ONE as int {
        FX_ONE as int
    } else {
        c
    };
    (k * 255) / 65536
}

/// The fixed-point value of an 8-bit channel.
pub open spec fn from_8bit(v: int) -> int {
    (v * 65536 + 254) / 255
}

/// The hexadecimal rendering of a color.
pub open spec fn hex_str(c: Color, include_alpha: bool) -> Seq<char> {
    let rgb = "#"@ + hex_byte_str(to_8bit(c.r as int)) + hex_byte_str(to_8bit(c.g as int))
        + hex_byte_str(to_8bit(c.b as int));
    if include_alpha {
        rgb + hex_byte_str(to_8bit(c.a as int))
    } else {
        rgb
    }
}

/// An 8-bit channel value always fits a byte.
pub proof fn lemma_to_8bit_range(c: int)
    ensures
        0 <= to_8bit(c) <= 255,
{
    let k = if c < 0 {
        0
    } else if c > FX_ONE as int {
        FX_ONE as int
    } else {
        c
    };
    assert(0 <= k * 255 <= 16711680) by (nonlinear_arith)
        requires
            0 <= k <= 65536,
    ;
    vstd::arithmetic::div_mod::lemma_div_pos_is_pos(k * 255, 65536);
    vstd::arithmetic::div_mod::lemma_div_is_ordered(k * 255, 16711680, 65536);
}

/// Quantization round trip: a channel built from an 8-bit value converts
/// back to exactly that value.
pub proof fn lemma_channel_round_trip(v: int)
    requires
        0 <= v <= 255,
    ensures
        to_8bit(from_8bit(v)) == v,
{
    let k = from_8bit(v);
    vstd::arithmetic::div_mod::lemma_fundamental_div_mod(v * 65536 + 254, 255);
    vstd::arithmetic::div_mod::lemma_mod_bound(v * 65536 + 254, 255);
    // 255 * k is within [v * 65536, v * 65536 + 254]
    assert(v * 65536 <= 255 * k <= v * 65536 + 254) by (nonlinear_arith)
        requires
            v * 65536 + 254 == 255 * k + ((v * 65536 + 254) % 255),
            0 <= (v * 65536 + 254) % 255 < 255,
    ;
    assert(0 <= k <= FX_ONE) by (nonlinear_arith)
        requires
            v * 65536 <= 255 * k <= v * 65536 + 254,
            0 <= v <= 255,
    ;
    assert((k * 255) / 65536 == v) by {
        assert(k * 255 == 65536 * v + (k * 255 - 65536 * v)) by (nonlinear_arith);
        assert(0 <= k * 255 - 65536 * v < 65536) by (nonlinear_arith)
            requires
                v * 65536 <= 255 * k <= v * 65536 + 254,
        ;
        vstd::arithmetic::div_mod::lemma_fundamental_div_mod_converse(
            k * 255, 65536, v, k * 255 - 65536 * v);
    }
}

} // verus!
