//! Color values and conversions.
//!
//! A [`Color`] holds four fixed-point channels `r, g, b, a`, each nominally
//! in `[0, 1]` (raw `[0, 65536]`); values outside that range are legal here
//! and left to the rasterizer to clamp. Constructors from 8-bit channels
//! scale by `1/255`; HSL conversion uses the standard six-sector formula.
//!
//! A deliberate limit of the representation: the sector hues at odd sixths
//! of a turn (`1/6`, `1/3`, `2/3`, `5/6`) are not representable in 16.16
//! fixed point, so at the nearest representable hues a channel that the
//! real-number formula would place exactly on a sector boundary can land
//! one raw unit inside the adjacent ramp and miss its pure primary value
//! by up to `6` raw units (about `9e-5`). The representable sector hues
//! `0` (red) and `1/2` (cyan) are reproduced exactly, which the lemmas
//! below prove.

use vstd::prelude::*;

use crate::fixed::FX_HALF;
use crate::fixed::FX_ONE;
use crate::fixed::Fx;
use crate::fixed::fx_add;
use crate::fixed::fx_add_spec;
use crate::fixed::fx_clamp;
use crate::fixed::fx_mul;
use crate::fixed::fx_mul_spec;
use crate::fixed::fx_sub;
use crate::fixed::fx_sub_spec;
use crate::fixed::emod;
use crate::fixed::tdiv;

verus! {

/// A color: four fixed-point channels.
#[derive(Clone, Copy, Debug, PartialEq)]
pub struct Color {
    pub r: Fx,
    pub g: Fx,
    pub b: Fx,
    pub a: Fx,
}

/// Model of the 8-bit-to-unit-range channel conversion: `c / 255` at
/// fixed-point scale, rounded toward zero.
pub open spec fn from_255_spec(c: int) -> int {
    tdiv(c * (FX_ONE as int), 255)
}

/// Converts an 8-bit channel to a fixed-point channel (`c * 65536 / 255`).
pub fn from_255(c: u8) -> (r: Fx)
    ensures
        r as int == from_255_spec(c as int),
        0 <= r && r <= FX_ONE,
{
    let wide: u64 = (c as u64) * 65536;
    proof {
        vstd::arithmetic::div_mod::lemma_div_pos_is_pos(wide as int, 255);
        vstd::arithmetic::div_mod::lemma_div_is_ordered(wide as int, 16711680, 255);
    }
    (wide / 255) as i64
}

/// Model of channel interpolation: `c0 + (c1 - c0) * u`.
pub open spec fn lerp_channel(c0: int, c1: int, u: int) -> int {
    fx_add_spec(c0, fx_mul_spec(fx_sub_spec(c1, c0), u))
}

/// Model of the HSL hue ramp on one channel. `h` is a hue offset at
/// fixed-point scale, taken modulo one; `m1` and `m2` are the low and high
/// mixing values.
pub open spec fn hue_channel(h: int, m1: int, m2: int) -> int {
    let t = h % (FX_ONE as int);
    if 6 * t < FX_ONE {
        fx_add_spec(m1, crate::fixed::fx_clip(tdiv(fx_sub_spec(m2, m1) * 6 * t, FX_ONE as int)))
    } else if 6 * t < 3 * (FX_ONE as int) {
        m2
    } else if 6 * t < 4 * (FX_ONE as int) {
        fx_add_spec(
            m1,
            crate::fixed::fx_clip(
                tdiv(fx_sub_spec(m2, m1) * (4 * (FX_ONE as int) - 6 * t), FX_ONE as int),
            ),
        )
    } else {
        m1
    }
}

/// The hue ramp used by HSL conversion.
fn hue(h: Fx, m1: Fx, m2: Fx) -> (r: Fx)
    ensures
        r as int == hue_channel(h as int, m1 as int, m2 as int),
{
    let t: Fx = emod(h, FX_ONE);
    proof {
        vstd::arithmetic::div_mod::lemma_mod_division_less_than_divisor(h as int, FX_ONE as int);
    }
    let d: Fx = fx_sub(m2, m1);
    if 6 * t < FX_ONE {
        proof {
            mul_in_range(d as int, 6 * (t as int));
            assert((d as int) * 6 * (t as int) == (d as int) * (6 * (t as int)))
                by (nonlinear_arith);
        }
        let p: i128 = (d as i128) * ((6 * t) as i128);
        let q: i64 = div_one(p);
        fx_add(m1, q)
    } else if 6 * t < 3 * FX_ONE {
        m2
    } else if 6 * t < 4 * FX_ONE {
        let w: i64 = 4 * FX_ONE - 6 * t;
        proof {
            mul_in_range(d as int, w as int);
        }
        let p: i128 = (d as i128) * (w as i128);
        let q: i64 = div_one(p);
        fx_add(m1, q)
    } else {
        m1
    }
}

/// A product of one scalar in range and one small factor stays within the
/// wide intermediate range.
proof fn mul_in_range(d: int, w: int)
    requires
        crate::fixed::abs_i(d) <= 0x8000_0000_0000_0000,
        crate::fixed::abs_i(w) <= 0x8000_0000_0000_0000,
    ensures
        crate::fixed::abs_i(d * w) <= 0x8000_0000_0000_0000 * 0x8000_0000_0000_0000,
{
    assert(crate::fixed::abs_i(d * w) <= 0x8000_0000_0000_0000 * 0x8000_0000_0000_0000)
        by (nonlinear_arith)
        requires
            crate::fixed::abs_i(d) <= 0x8000_0000_0000_0000,
            crate::fixed::abs_i(w) <= 0x8000_0000_0000_0000,
    ;
}

/// Rescales a wide product by the fixed-point one, truncating toward zero.
fn div_one(p: i128) -> (r: i64)
    ensures
        r as int == crate::fixed::fx_clip(tdiv(p as int, FX_ONE as int)),
{
    let neg: bool = p < 0;
    let mag: u128 = crate::fixed::mag_i128(p);
    proof {
        crate::fixed::lemma_tdiv_signs(p as int, FX_ONE as int);
    }
    crate::fixed::div_mag(mag, FX_ONE as u128, neg)
}

impl Color {
    /// Returns a color from 8-bit red, green and blue; alpha is one.
    pub fn rgb(r: u8, g: u8, b: u8) -> (c: Color)
        ensures
            c.r as int == from_255_spec(r as int),
            c.g as int == from_255_spec(g as int),
            c.b as int == from_255_spec(b as int),
            c.a == FX_ONE,
    {
        Color { r: from_255(r), g: from_255(g), b: from_255(b), a: FX_ONE }
    }

    /// Returns a color from fixed-point red, green and blue; alpha is one.
    pub fn rgbf(r: Fx, g: Fx, b: Fx) -> (c: Color)
        ensures
            c == (Color { r, g, b, a: FX_ONE }),
    {
        Color { r, g, b, a: FX_ONE }
    }

    /// Returns a color from 8-bit red, green, blue and alpha.
    pub fn rgba(r: u8, g: u8, b: u8, a: u8) -> (c: Color)
        ensures
            c.r as int == from_255_spec(r as int),
            c.g as int == from_255_spec(g as int),
            c.b as int == from_255_spec(b as int),
            c.a as int == from_255_spec(a as int),
    {
        Color { r: from_255(r), g: from_255(g), b: from_255(b), a: from_255(a) }
    }

    /// Returns a color from fixed-point red, green, blue and alpha.
    pub fn rgbaf(r: Fx, g: Fx, b: Fx, a: Fx) -> (c: Color)
        ensures
            c == (Color { r, g, b, a }),
    {
        Color { r, g, b, a }
    }

    /// Linearly interpolates every channel from `c0` to `c1` at parameter
    /// `u`, which is clamped into `[0, 1]` first.
    pub fn lerp_rgba(c0: Color, c1: Color, u: Fx) -> (c: Color)
        ensures
            ({
                let cu = if (u as int) < 0 {
                    0
                } else if u as int > FX_ONE as int {
                    FX_ONE as int
                } else {
                    u as int
                };
                c.r as int == lerp_channel(c0.r as int, c1.r as int, cu)
                    && c.g as int == lerp_channel(c0.g as int, c1.g as int, cu)
                    && c.b as int == lerp_channel(c0.b as int, c1.b as int, cu)
                    && c.a as int == lerp_channel(c0.a as int, c1.a as int, cu)
            }),
    {
        let cu: Fx = fx_clamp(u, 0, FX_ONE);
        Color {
            r: fx_add(c0.r, fx_mul(fx_sub(c1.r, c0.r), cu)),
            g: fx_add(c0.g, fx_mul(fx_sub(c1.g, c0.g), cu)),
            b: fx_add(c0.b, fx_mul(fx_sub(c1.b, c0.b), cu)),
            a: fx_add(c0.a, fx_mul(fx_sub(c1.a, c0.a), cu)),
        }
    }

    /// Returns the same color with transparency set from an 8-bit value.
    pub fn with_transparency(&self, a: u8) -> (c: Color)
        ensures
            c.r == self.r,
            c.g == self.g,
            c.b == self.b,
            c.a as int == from_255_spec(a as int),
    {
        Color { a: from_255(a), ..*self }
    }

    /// Returns the same color with transparency set from a fixed-point
    /// value.
    pub fn with_transparencyf(&self, a: Fx) -> (c: Color)
        ensures
            c == (Color { r: self.r, g: self.g, b: self.b, a }),
    {
        Color { a, ..*self }
    }

    /// Returns a color from hue, saturation and lightness, all in `[0, 1]`
    /// (hue wraps; saturation and lightness are clamped); alpha is one.
    pub fn hsl(h: Fx, s: Fx, l: Fx) -> (c: Color)
        ensures
            c == Self::hsl_spec(h as int, s as int, l as int, FX_ONE as int),
    {
        proof {
            vstd::arithmetic::div_mod::lemma_div_multiples_vanish(65536, 255);
            assert(from_255_spec(255) == FX_ONE);
        }
        Self::hsla(h, s, l, 255)
    }

    /// The model of HSL conversion: the two mixing values `m1`, `m2` and
    /// the hue ramp at offsets of a third of a turn.
    pub open spec fn hsl_spec(h: int, s: int, l: int, a: int) -> Color {
        let cs = if s < 0 {
            0
        } else if s > FX_ONE as int {
            FX_ONE as int
        } else {
            s
        };
        let cl = if l < 0 {
            0
        } else if l > FX_ONE as int {
            FX_ONE as int
        } else {
            l
        };
        let m2 = if cl <= FX_HALF as int {
            fx_mul_spec(cl, fx_add_spec(FX_ONE as int, cs))
        } else {
            fx_sub_spec(fx_add_spec(cl, cs), fx_mul_spec(cl, cs))
        };
        let m1 = fx_sub_spec(fx_add_spec(cl, cl), m2);
        Color {
            r: hue_channel(fx_add_spec(h, 21845), m1, m2) as i64,
            g: hue_channel(h, m1, m2) as i64,
            b: hue_channel(fx_sub_spec(h, 21845), m1, m2) as i64,
            a: a as i64,
        }
    }

    /// Returns a color from hue, saturation, lightness and 8-bit alpha.
    pub fn hsla(h: Fx, s: Fx, l: Fx, a: u8) -> (c: Color)
        ensures
            c == Self::hsl_spec(h as int, s as int, l as int, from_255_spec(a as int)),
    {
        let cs: Fx = fx_clamp(s, 0, FX_ONE);
        let cl: Fx = fx_clamp(l, 0, FX_ONE);
        let m2: Fx = if cl <= FX_HALF {
            fx_mul(cl, fx_add(FX_ONE, cs))
        } else {
            fx_sub(fx_add(cl, cs), fx_mul(cl, cs))
        };
        let m1: Fx = fx_sub(fx_add(cl, cl), m2);
        Color {
            r: hue(fx_add(h, 21845), m1, m2),
            g: hue(h, m1, m2),
            b: hue(fx_sub(h, 21845), m1, m2),
            a: from_255(a),
        }
    }
}


/// Round-trip color law: dividing the raw 8-bit channel by 255 in
/// fixed-point arithmetic yields exactly the channel that [`Color::rgb`]
/// builds, so `rgb(r, g, b)` equals `rgbf(r/255, g/255, b/255)`.
pub proof fn lemma_rgb_round_trip(c: int)
    requires
        0 <= c <= 255,
    ensures
        crate::fixed::fx_div_spec(c * (FX_ONE as int), 255 * (FX_ONE as int)) == from_255_spec(c),
{
    let x = c * 65536 * 65536;
    assert(0 <= c * 65536 && c * 65536 <= 16711680 && (c * 65536) * 65536 == 65536 * (c * 65536)
        && 0 <= (c * 65536) * 65536) by (nonlinear_arith)
        requires
            0 <= c <= 255,
    ;
    vstd::arithmetic::div_mod::lemma_div_multiples_vanish(c * 65536, 65536);
    vstd::arithmetic::div_mod::lemma_div_denominator(x, 65536, 255);
    vstd::arithmetic::div_mod::lemma_div_pos_is_pos(c * 65536, 255);
    vstd::arithmetic::div_mod::lemma_div_is_ordered(c * 65536, 16711680, 255);
    vstd::arithmetic::div_mod::lemma_div_multiples_vanish(65536, 255);
}

/// Pure red from HSL: hue zero at full saturation and half lightness is
/// exactly `(1, 0, 0)` with alpha one.
pub proof fn lemma_hsl_red()
    ensures
        Color::hsl_spec(0, FX_ONE as int, FX_HALF as int, FX_ONE as int) == (Color {
            r: FX_ONE,
            g: 0,
            b: 0,
            a: FX_ONE,
        }),
{
    assert(fx_mul_spec(32768, 131072) == 65536) by {
        vstd::arithmetic::div_mod::lemma_div_multiples_vanish(65536, 65536);
    };
    assert((21845int) % 65536 == 21845) by {
        vstd::arithmetic::div_mod::lemma_small_mod(21845nat, 65536nat);
    };
    assert((-21845int) % 65536 == 43691) by {
        vstd::arithmetic::div_mod::lemma_fundamental_div_mod_converse_mod(-21845, 65536, -1, 43691);
    };
    assert((0int) % 65536 == 0) by {
        vstd::arithmetic::div_mod::lemma_small_mod(0nat, 65536nat);
    };
    assert(hue_channel(21845, 0, 65536) == 65536);
    assert(tdiv((65536 * 6 * 0) as int, 65536) == 0);
    assert(hue_channel(0, 0, 65536) == 0);
    assert(hue_channel(-21845, 0, 65536) == 0);
}


/// Pure cyan from HSL: hue one half at full saturation and half lightness
/// is exactly `(0, 1, 1)` with alpha one.
pub proof fn lemma_hsl_cyan()
    ensures
        Color::hsl_spec(FX_HALF as int, FX_ONE as int, FX_HALF as int, FX_ONE as int) == (Color {
            r: 0,
            g: FX_ONE,
            b: FX_ONE,
            a: FX_ONE,
        }),
{
    assert(fx_mul_spec(32768, 131072) == 65536) by {
        vstd::arithmetic::div_mod::lemma_div_multiples_vanish(65536, 65536);
    };
    assert((54613int) % 65536 == 54613) by {
        vstd::arithmetic::div_mod::lemma_small_mod(54613nat, 65536nat);
    };
    assert((32768int) % 65536 == 32768) by {
        vstd::arithmetic::div_mod::lemma_small_mod(32768nat, 65536nat);
    };
    assert((10923int) % 65536 == 10923) by {
        vstd::arithmetic::div_mod::lemma_small_mod(10923nat, 65536nat);
    };
    assert(hue_channel(54613, 0, 65536) == 0);
    assert(tdiv((65536 * (4 * 65536 - 6 * 32768)) as int, 65536) == 65536) by {
        vstd::arithmetic::div_mod::lemma_div_multiples_vanish(65536, 65536);
    };
    assert(hue_channel(32768, 0, 65536) == 65536);
    assert(hue_channel(10923, 0, 65536) == 65536);
}

} // verus!
