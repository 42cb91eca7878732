//! The paint model: solid colors, gradients and image patterns.
//!
//! A [`Paint`] is exactly one of five variants, named by an explicit
//! [`PaintKind`] discriminant rather than inferred from zero-valued fields.
//! Every paint carries its own local transform; the live global transform is
//! composed with it lazily at fill or stroke time, never baked in at
//! construction, so a gradient built once renders consistently under
//! whatever transform is active when it is used.

use vstd::prelude::*;

use crate::color::Color;
use crate::fixed::FX_ONE;
use crate::fixed::Fx;
use crate::fixed::fx_add;
use crate::fixed::fx_add_spec;
use crate::fixed::fx_div;
use crate::fixed::fx_div_spec;
use crate::fixed::fx_half;
use crate::fixed::fx_half_spec;
use crate::fixed::fx_len;
use crate::fixed::fx_len_spec;
use crate::fixed::fx_max;
use crate::fixed::fx_neg;
use crate::fixed::fx_clip;
use crate::fixed::fx_sub;
use crate::fixed::fx_sub_spec;
use crate::math::Mat;
use crate::math::Transform;
use crate::math::mat_identity;

verus! {

/// Which of the five paint variants a [`Paint`] value is.
#[derive(Clone, Copy, Debug, PartialEq, Eq, Structural)]
pub enum PaintKind {
    Solid,
    LinearGradient,
    BoxGradient,
    RadialGradient,
    ImagePattern,
}

/// The far extent used by linear gradients to place the gradient axis: a
/// large span (`1e5` in real-number units) so the ramp covers any canvas.
pub const GRADIENT_LARGE: i64 = 6553600000;

/// A paint descriptor: one variant plus its geometry and colors. For a
/// solid paint the two colors coincide and the gradient shape is unused.
#[derive(Clone, Copy, Debug, PartialEq)]
pub struct Paint {
    pub kind: PaintKind,
    pub xform: Transform,
    pub extent: [Fx; 2],
    pub radius: Fx,
    pub feather: Fx,
    pub inner_color: Color,
    pub outer_color: Color,
    pub image: isize,
}

impl Paint {
    /// A solid paint from a color: both gradient colors are the color, the
    /// local transform is the identity and the gradient shape is empty.
    pub fn from_color(color: Color) -> (p: Paint)
        ensures
            p.kind == PaintKind::Solid,
            p.xform@ == mat_identity(),
            p.extent[0] == 0 && p.extent[1] == 0,
            p.radius == 0,
            p.feather == FX_ONE,
            p.inner_color == color,
            p.outer_color == color,
            p.image == 0,
    {
        Paint {
            kind: PaintKind::Solid,
            xform: Transform::identity(),
            extent: [0, 0],
            radius: 0,
            feather: FX_ONE,
            inner_color: color,
            outer_color: color,
            image: 0,
        }
    }

    /// A linear gradient from `(sx, sy)` to `(ex, ey)`: the local transform
    /// aligns the gradient axis with the segment's direction, and the
    /// extent places the color ramp across the segment.
    pub fn linear_gradient(sx: Fx, sy: Fx, ex: Fx, ey: Fx, icol: Color, ocol: Color) -> (p:
        Paint)
        ensures
            p.kind == PaintKind::LinearGradient,
            p.inner_color == icol,
            p.outer_color == ocol,
            p.radius == 0,
            p.image == 0,
            ({
                let dx0 = fx_sub_spec(ex as int, sx as int);
                let dy0 = fx_sub_spec(ey as int, sy as int);
                let d = fx_len_spec(dx0, dy0);
                let ndx = if d > 7 {
                    fx_div_spec(dx0, d)
                } else {
                    0
                };
                let ndy = if d > 7 {
                    fx_div_spec(dy0, d)
                } else {
                    FX_ONE as int
                };
                p.xform@ == (Mat {
                    a: ndy,
                    b: fx_clip(-ndx),
                    c: ndx,
                    d: ndy,
                    e: fx_sub_spec(sx as int, fx_clip(tmul_large(ndx))),
                    f: fx_sub_spec(sy as int, fx_clip(tmul_large(ndy))),
                }) && p.extent[0] == GRADIENT_LARGE && p.extent[1] as int == fx_add_spec(
                    GRADIENT_LARGE as int,
                    fx_half_spec(d),
                ) && p.feather as int == if d >= FX_ONE as int {
                    d
                } else {
                    FX_ONE as int
                }
            }),
    {
        let dx0: Fx = fx_sub(ex, sx);
        let dy0: Fx = fx_sub(ey, sy);
        let d: Fx = fx_len(dx0, dy0);
        let ndx: Fx;
        let ndy: Fx;
        if d > 7 {
            ndx = fx_div(dx0, d);
            ndy = fx_div(dy0, d);
        } else {
            ndx = 0;
            ndy = FX_ONE;
        }
        let xform = Transform {
            m: [
                ndy,
                fx_neg(ndx),
                ndx,
                ndy,
                fx_sub(sx, mul_large(ndx)),
                fx_sub(sy, mul_large(ndy)),
            ],
        };
        Paint {
            kind: PaintKind::LinearGradient,
            xform,
            extent: [GRADIENT_LARGE, fx_add(GRADIENT_LARGE, fx_half(d))],
            radius: 0,
            feather: fx_max(FX_ONE, d),
            inner_color: icol,
            outer_color: ocol,
            image: 0,
        }
    }

    /// A box gradient: a feathered rounded rectangle with top-left corner
    /// `(x, y)`, size `(w, h)`, corner radius `r` and feather `f`. The local
    /// transform centers the box.
    pub fn box_gradient(x: Fx, y: Fx, w: Fx, h: Fx, r: Fx, f: Fx, icol: Color, ocol: Color) -> (p:
        Paint)
        ensures
            p.kind == PaintKind::BoxGradient,
            p.xform@ == (Mat {
                a: FX_ONE as int,
                b: 0,
                c: 0,
                d: FX_ONE as int,
                e: fx_add_spec(x as int, fx_half_spec(w as int)),
                f: fx_add_spec(y as int, fx_half_spec(h as int)),
            }),
            p.extent[0] as int == fx_half_spec(w as int),
            p.extent[1] as int == fx_half_spec(h as int),
            p.radius == r,
            p.feather as int == if f as int >= FX_ONE as int {
                f as int
            } else {
                FX_ONE as int
            },
            p.inner_color == icol,
            p.outer_color == ocol,
            p.image == 0,
    {
        let mut xform = Transform::identity();
        xform.set_translate(fx_add(x, fx_half(w)), fx_add(y, fx_half(h)));
        Paint {
            kind: PaintKind::BoxGradient,
            xform,
            extent: [fx_half(w), fx_half(h)],
            radius: r,
            feather: fx_max(FX_ONE, f),
            inner_color: icol,
            outer_color: ocol,
            image: 0,
        }
    }

    /// A radial gradient centered at `(cx, cy)` ramping between the inner
    /// and outer radii.
    pub fn radial_gradient(cx: Fx, cy: Fx, inr: Fx, outr: Fx, icol: Color, ocol: Color) -> (p:
        Paint)
        ensures
            p.kind == PaintKind::RadialGradient,
            p.xform@ == (Mat {
                a: FX_ONE as int,
                b: 0,
                c: 0,
                d: FX_ONE as int,
                e: cx as int,
                f: cy as int,
            }),
            p.extent[0] as int == fx_half_spec(fx_add_spec(inr as int, outr as int)),
            p.extent[1] as int == fx_half_spec(fx_add_spec(inr as int, outr as int)),
            p.radius as int == fx_half_spec(fx_add_spec(inr as int, outr as int)),
            p.feather as int == ({
                let f = fx_sub_spec(outr as int, inr as int);
                if f >= FX_ONE as int {
                    f
                } else {
                    FX_ONE as int
                }
            }),
            p.inner_color == icol,
            p.outer_color == ocol,
            p.image == 0,
    {
        let r: Fx = fx_half(fx_add(inr, outr));
        let f: Fx = fx_sub(outr, inr);
        let mut xform = Transform::identity();
        xform.set_translate(cx, cy);
        Paint {
            kind: PaintKind::RadialGradient,
            xform,
            extent: [r, r],
            radius: r,
            feather: fx_max(FX_ONE, f),
            inner_color: icol,
            outer_color: ocol,
            image: 0,
        }
    }

    /// An image pattern: the image with the given handle placed with its
    /// top-left corner at `(cx, cy)`, spanning `(w, h)`, rotated by `angle`
    /// around that corner, modulated by `alpha`.
    pub fn image_pattern(cx: Fx, cy: Fx, w: Fx, h: Fx, angle: Fx, image: isize, alpha: Fx) -> (p:
        Paint)
        ensures
            p.kind == PaintKind::ImagePattern,
            p.xform@ == (Mat {
                a: crate::fixed::fx_cos_spec(angle as int),
                b: crate::fixed::fx_sin_spec(angle as int),
                c: -crate::fixed::fx_sin_spec(angle as int),
                d: crate::fixed::fx_cos_spec(angle as int),
                e: cx as int,
                f: cy as int,
            }),
            p.extent[0] == w,
            p.extent[1] == h,
            p.radius == 0,
            p.feather == 0,
            p.inner_color == (Color { r: FX_ONE, g: FX_ONE, b: FX_ONE, a: alpha }),
            p.outer_color == (Color { r: FX_ONE, g: FX_ONE, b: FX_ONE, a: alpha }),
            p.image == image,
    {
        let cs: Fx = crate::fixed::fx_cos(angle);
        let sn: Fx = crate::fixed::fx_sin(angle);
        let xform = Transform { m: [cs, sn, -sn, cs, cx, cy] };
        let white = Color::rgbaf(FX_ONE, FX_ONE, FX_ONE, alpha);
        Paint {
            kind: PaintKind::ImagePattern,
            xform,
            extent: [w, h],
            radius: 0,
            feather: 0,
            inner_color: white,
            outer_color: white,
            image,
        }
    }
}

/// Model of scaling a unit direction by the gradient's far extent.
pub open spec fn tmul_large(v: int) -> int {
    crate::fixed::tdiv(v * (GRADIENT_LARGE as int), FX_ONE as int)
}

/// Scales a unit direction by the gradient's far extent.
fn mul_large(v: Fx) -> (r: Fx)
    ensures
        r as int == fx_clip(tmul_large(v as int)),
{
    proof {
        assert(crate::fixed::abs_i((v as int) * (GRADIENT_LARGE as int)) <= 0x8000_0000_0000_0000
            * 0x2_0000_0000_0000) by (nonlinear_arith)
            requires
                crate::fixed::abs_i(v as int) <= 0x8000_0000_0000_0000,
                0 <= GRADIENT_LARGE as int <= 0x2_0000_0000_0000,
        ;
    }
    let p: i128 = (v as i128) * (GRADIENT_LARGE as i128);
    let neg: bool = p < 0;
    let mag: u128 = crate::fixed::mag_i128(p);
    proof {
        crate::fixed::lemma_tdiv_signs(p as int, FX_ONE as int);
    }
    crate::fixed::div_mag(mag, FX_ONE as u128, neg)
}

} // verus!
