//! 2x3 affine transform algebra.
//!
//! A [`Transform`] holds six fixed-point scalars `m = [a, b, c, d, e, f]`
//! standing for the matrix
//!
//! ```text
//! [a c e]
//! [b d f]
//! [0 0 1]
//! ```
//!
//! which maps a point by `x' = a*x + c*y + e`, `y' = b*x + d*y + f`. Every
//! operation has an exact model over the ghost matrix [`Mat`].

use vstd::prelude::*;

use crate::fixed::Fx;
use crate::fixed::FX_MAX;
use crate::fixed::FX_ONE;
use crate::fixed::abs_i;
use crate::fixed::fx_add;
use crate::fixed::fx_add_spec;
use crate::fixed::fx_clip;
use crate::fixed::fx_cos;
use crate::fixed::fx_cos_spec;
use crate::fixed::fx_mul;
use crate::fixed::fx_mul_spec;
use crate::fixed::fx_sin;
use crate::fixed::fx_sin_spec;
use crate::fixed::fx_tan;
use crate::fixed::fx_tan_spec;
use crate::fixed::tdiv;

verus! {

/// The mathematical model of a transform: six unbounded integers.
pub ghost struct Mat {
    pub a: int,
    pub b: int,
    pub c: int,
    pub d: int,
    pub e: int,
    pub f: int,
}

/// The identity matrix model.
pub open spec fn mat_identity() -> Mat {
    Mat { a: FX_ONE as int, b: 0, c: 0, d: FX_ONE as int, e: 0, f: 0 }
}

/// x-coordinate of a mapped point: `a*x + c*y + e` in fixed-point arithmetic.
pub open spec fn apply_x(m: Mat, x: int, y: int) -> int {
    fx_add_spec(fx_add_spec(fx_mul_spec(x, m.a), fx_mul_spec(y, m.c)), m.e)
}

/// y-coordinate of a mapped point: `b*x + d*y + f` in fixed-point arithmetic.
pub open spec fn apply_y(m: Mat, x: int, y: int) -> int {
    fx_add_spec(fx_add_spec(fx_mul_spec(x, m.b), fx_mul_spec(y, m.d)), m.f)
}

/// Matrix product `s * m` (with the implicit `[0 0 1]` rows): the composite
/// map that applies `m` to a point first and `s` after.
pub open spec fn mul_mat(s: Mat, m: Mat) -> Mat {
    Mat {
        a: fx_add_spec(fx_mul_spec(m.a, s.a), fx_mul_spec(m.b, s.c)),
        b: fx_add_spec(fx_mul_spec(m.a, s.b), fx_mul_spec(m.b, s.d)),
        c: fx_add_spec(fx_mul_spec(m.c, s.a), fx_mul_spec(m.d, s.c)),
        d: fx_add_spec(fx_mul_spec(m.c, s.b), fx_mul_spec(m.d, s.d)),
        e: fx_add_spec(fx_add_spec(fx_mul_spec(m.e, s.a), fx_mul_spec(m.f, s.c)), s.e),
        f: fx_add_spec(fx_add_spec(fx_mul_spec(m.e, s.b), fx_mul_spec(m.f, s.d)), s.f),
    }
}

/// Each entry saturated into the representable scalar range; inversion works
/// on the saturated entries.
pub open spec fn clip_mat(m: Mat) -> Mat {
    Mat {
        a: fx_clip(m.a),
        b: fx_clip(m.b),
        c: fx_clip(m.c),
        d: fx_clip(m.d),
        e: fx_clip(m.e),
        f: fx_clip(m.f),
    }
}

/// The determinant `a*d - c*b` of the saturated matrix, exact, at scale
/// `65536^2` (both factors carry the fixed-point scale).
pub open spec fn det2(m: Mat) -> int {
    let c = clip_mat(m);
    c.a * c.d - c.c * c.b
}

/// Determinant threshold below which a matrix counts as degenerate:
/// `1e-6` at the determinant's `65536^2` scale.
pub const DET_EPS2: i128 = 4295;

/// Whether the matrix may be inverted: its determinant is not too close to
/// zero.
pub open spec fn is_invertible(m: Mat) -> bool {
    abs_i(det2(m)) >= DET_EPS2 as int
}

/// The adjugate-over-determinant inverse of the saturated matrix, each entry
/// rounded toward zero and saturated.
pub open spec fn inv_mat(m: Mat) -> Mat {
    let c = clip_mat(m);
    let det = det2(m);
    Mat {
        a: fx_clip(tdiv(c.d * 0x1_0000_0000, det)),
        b: fx_clip(tdiv(-c.b * 0x1_0000_0000, det)),
        c: fx_clip(tdiv(-c.c * 0x1_0000_0000, det)),
        d: fx_clip(tdiv(c.a * 0x1_0000_0000, det)),
        e: fx_clip(tdiv((c.c * c.f - c.d * c.e) * (FX_ONE as int), det)),
        f: fx_clip(tdiv((c.b * c.e - c.a * c.f) * (FX_ONE as int), det)),
    }
}

/// A 2x3 affine matrix over fixed-point scalars, stored as
/// `[a, b, c, d, e, f]`.
#[derive(Clone, Copy, Debug, PartialEq)]
pub struct Transform {
    pub m: [Fx; 6],
}

impl View for Transform {
    type V = Mat;

    open spec fn view(&self) -> Mat {
        Mat {
            a: self.m[0] as int,
            b: self.m[1] as int,
            c: self.m[2] as int,
            d: self.m[3] as int,
            e: self.m[4] as int,
            f: self.m[5] as int,
        }
    }
}

impl Transform {
    /// The identity transform.
    pub fn identity() -> (r: Transform)
        ensures
            r@ == mat_identity(),
    {
        Transform { m: [FX_ONE, 0, 0, FX_ONE, 0, 0] }
    }

    /// Sets the transform to the identity matrix.
    pub fn set_identity(&mut self)
        ensures
            final(self)@ == mat_identity(),
    {
        self.m = [FX_ONE, 0, 0, FX_ONE, 0, 0];
    }

    /// Sets the transform to a translation matrix.
    pub fn set_translate(&mut self, tx: Fx, ty: Fx)
        ensures
            final(self)@ == (Mat {
                a: FX_ONE as int,
                b: 0,
                c: 0,
                d: FX_ONE as int,
                e: tx as int,
                f: ty as int,
            }),
    {
        self.m = [FX_ONE, 0, 0, FX_ONE, tx, ty];
    }

    /// Sets the transform to a scale matrix.
    pub fn set_scale(&mut self, sx: Fx, sy: Fx)
        ensures
            final(self)@ == (Mat { a: sx as int, b: 0, c: 0, d: sy as int, e: 0, f: 0 }),
    {
        self.m = [sx, 0, 0, sy, 0, 0];
    }

    /// Sets the transform to a rotation matrix; the angle is in radians.
    pub fn set_rotate(&mut self, a: Fx)
        ensures
            final(self)@ == (Mat {
                a: fx_cos_spec(a as int),
                b: fx_sin_spec(a as int),
                c: -fx_sin_spec(a as int),
                d: fx_cos_spec(a as int),
                e: 0,
                f: 0,
            }),
    {
        let cs: Fx = fx_cos(a);
        let sn: Fx = fx_sin(a);
        self.m = [cs, sn, -sn, cs, 0, 0];
    }

    /// Sets the transform to the standard skew-y matrix, which shears the
    /// y coordinate by the x coordinate (`y' = y + tan(angle) * x`); the
    /// angle is in radians.
    pub fn set_skew_y(&mut self, y: Fx)
        ensures
            final(self)@ == (Mat {
                a: FX_ONE as int,
                b: fx_tan_spec(y as int),
                c: 0,
                d: FX_ONE as int,
                e: 0,
                f: 0,
            }),
    {
        self.m = [FX_ONE, fx_tan(y), 0, FX_ONE, 0, 0];
    }

    /// Sets the transform to the standard skew-x matrix, which shears the
    /// x coordinate by the y coordinate (`x' = x + tan(angle) * y`); the
    /// angle is in radians.
    pub fn set_skew_x(&mut self, x: Fx)
        ensures
            final(self)@ == (Mat {
                a: FX_ONE as int,
                b: 0,
                c: fx_tan_spec(x as int),
                d: FX_ONE as int,
                e: 0,
                f: 0,
            }),
    {
        self.m = [FX_ONE, 0, fx_tan(x), FX_ONE, 0, 0];
    }

    /// Replaces the transform with the product `src * self`: the composite
    /// map that applies the old `self` to a point first and `src` after.
    pub fn set_multiply(&mut self, src: &Transform)
        ensures
            final(self)@ == mul_mat(src@, old(self)@),
    {
        let t0: Fx = fx_add(fx_mul(self.m[0], src.m[0]), fx_mul(self.m[1], src.m[2]));
        let t2: Fx = fx_add(fx_mul(self.m[2], src.m[0]), fx_mul(self.m[3], src.m[2]));
        let t4: Fx = fx_add(
            fx_add(fx_mul(self.m[4], src.m[0]), fx_mul(self.m[5], src.m[2])),
            src.m[4],
        );
        let m1: Fx = fx_add(fx_mul(self.m[0], src.m[1]), fx_mul(self.m[1], src.m[3]));
        let m3: Fx = fx_add(fx_mul(self.m[2], src.m[1]), fx_mul(self.m[3], src.m[3]));
        let m5: Fx = fx_add(
            fx_add(fx_mul(self.m[4], src.m[1]), fx_mul(self.m[5], src.m[3])),
            src.m[5],
        );
        self.m = [t0, m1, t2, m3, t4, m5];
    }

    /// Replaces the transform with the product `self * src`: the composite
    /// map that applies `src` to a point first and the old `self` after.
    /// Implemented by swapping the operands into [`Transform::set_multiply`].
    pub fn set_premultiply(&mut self, src: &Transform)
        ensures
            final(self)@ == mul_mat(old(self)@, src@),
    {
        let myself: Transform = *self;
        let mut t: Transform = *src;
        t.set_multiply(&myself);
        *self = t;
    }

    /// Computes the transform's inverse, or `None` when the determinant is
    /// too close to zero. The determinant and the adjugate are computed
    /// exactly in wide intermediates before the final rounding.
    pub fn invert(&self) -> (r: Option<Transform>)
        ensures
            r is Some <==> is_invertible(self@),
            r matches Some(t) ==> t@ == inv_mat(self@),
    {
        let ca: Fx = crate::fixed::fx_clamp(self.m[0], -FX_MAX, FX_MAX);
        let cb: Fx = crate::fixed::fx_clamp(self.m[1], -FX_MAX, FX_MAX);
        let cc: Fx = crate::fixed::fx_clamp(self.m[2], -FX_MAX, FX_MAX);
        let cd: Fx = crate::fixed::fx_clamp(self.m[3], -FX_MAX, FX_MAX);
        let ce: Fx = crate::fixed::fx_clamp(self.m[4], -FX_MAX, FX_MAX);
        let cf: Fx = crate::fixed::fx_clamp(self.m[5], -FX_MAX, FX_MAX);
        proof {
            assert(clip_mat(self@) == (Mat {
                a: ca as int,
                b: cb as int,
                c: cc as int,
                d: cd as int,
                e: ce as int,
                f: cf as int,
            }));
        }
        invert_clamped(ca, cb, cc, cd, ce, cf)
    }

    /// Maps a point through the transform.
    pub fn point(&self, sx: Fx, sy: Fx) -> (r: (Fx, Fx))
        ensures
            r.0 as int == apply_x(self@, sx as int, sy as int),
            r.1 as int == apply_y(self@, sx as int, sy as int),
    {
        let dx: Fx = fx_add(fx_add(fx_mul(sx, self.m[0]), fx_mul(sy, self.m[2])), self.m[4]);
        let dy: Fx = fx_add(fx_add(fx_mul(sx, self.m[1]), fx_mul(sy, self.m[3])), self.m[5]);
        (dx, dy)
    }
}

/// Multiplying by the fixed-point one is exact.
proof fn lemma_fx_mul_one(x: int)
    requires
        abs_i(x) <= FX_MAX,
    ensures
        fx_mul_spec(x, FX_ONE as int) == x,
{
    if x >= 0 {
        vstd::arithmetic::div_mod::lemma_div_multiples_vanish(x, 65536);
        assert(x * 65536 == 65536 * x) by (nonlinear_arith);
    } else {
        vstd::arithmetic::div_mod::lemma_div_multiples_vanish(-x, 65536);
        assert(-(x * 65536) == 65536 * (-x)) by (nonlinear_arith);
    }
}

/// Multiplying by an integer-valued scalar (a whole multiple of one) is
/// exact as long as the product stays representable.
proof fn lemma_fx_mul_exact(p: int, k: int)
    requires
        abs_i(p * k) <= FX_MAX,
    ensures
        fx_mul_spec(p, 65536 * k) == p * k,
{
    assert(p * (65536 * k) == 65536 * (p * k)) by (nonlinear_arith);
    if p * k >= 0 {
        vstd::arithmetic::div_mod::lemma_div_multiples_vanish(p * k, 65536);
    } else {
        vstd::arithmetic::div_mod::lemma_div_multiples_vanish(-(p * k), 65536);
        assert(-(65536 * (p * k)) == 65536 * (-(p * k))) by (nonlinear_arith);
    }
}

/// Identity law: mapping any representable point through the identity
/// transform returns the point unchanged.
pub proof fn lemma_identity_apply(x: int, y: int)
    requires
        abs_i(x) <= FX_MAX,
        abs_i(y) <= FX_MAX,
    ensures
        apply_x(mat_identity(), x, y) == x,
        apply_y(mat_identity(), x, y) == y,
{
    lemma_fx_mul_one(x);
    lemma_fx_mul_one(y);
    assert(x * 0 == 0 && y * 0 == 0) by (nonlinear_arith);
}

/// Inverse law for translations: a translation is always invertible, its
/// inverse is the opposite translation, and mapping a point there and back
/// returns it exactly.
pub proof fn lemma_invert_translation(tx: int, ty: int, x: int, y: int)
    requires
        abs_i(tx) <= 0x2000_0000_0000,
        abs_i(ty) <= 0x2000_0000_0000,
        abs_i(x) <= 0x2000_0000_0000,
        abs_i(y) <= 0x2000_0000_0000,
    ensures
        is_invertible(Mat { a: FX_ONE as int, b: 0, c: 0, d: FX_ONE as int, e: tx, f: ty }),
        ({
            let m = Mat { a: FX_ONE as int, b: 0, c: 0, d: FX_ONE as int, e: tx, f: ty };
            let mi = inv_mat(m);
            apply_x(mi, apply_x(m, x, y), apply_y(m, x, y)) == x
                && apply_y(mi, apply_x(m, x, y), apply_y(m, x, y)) == y
        }),
{
    let m = Mat { a: FX_ONE as int, b: 0, c: 0, d: FX_ONE as int, e: tx, f: ty };
    assert(clip_mat(m) == m);
    assert(det2(m) == 0x1_0000_0000);
    let mi = inv_mat(m);
    vstd::arithmetic::div_mod::lemma_div_multiples_vanish(65536, 0x1_0000_0000);
    assert(tdiv((65536 * 0x1_0000_0000) as int, 0x1_0000_0000) == 65536);
    assert(mi.a == 65536 && mi.b == 0 && mi.c == 0 && mi.d == 65536);
    // the adjugate translation terms reduce to -tx and -ty exactly
    assert((0 * ty - 65536 * tx) * 65536 == -(0x1_0000_0000 * tx)
        && (0 * tx - 65536 * ty) * 65536 == -(0x1_0000_0000 * ty)) by (nonlinear_arith);
    if tx >= 0 {
        vstd::arithmetic::div_mod::lemma_div_multiples_vanish(tx, 0x1_0000_0000);
    } else {
        vstd::arithmetic::div_mod::lemma_div_multiples_vanish(-tx, 0x1_0000_0000);
        assert(0x1_0000_0000 * tx == -(0x1_0000_0000 * (-tx))) by (nonlinear_arith);
    }
    if ty >= 0 {
        vstd::arithmetic::div_mod::lemma_div_multiples_vanish(ty, 0x1_0000_0000);
    } else {
        vstd::arithmetic::div_mod::lemma_div_multiples_vanish(-ty, 0x1_0000_0000);
        assert(0x1_0000_0000 * ty == -(0x1_0000_0000 * (-ty))) by (nonlinear_arith);
    }
    assert(mi.e == -tx && mi.f == -ty);
    lemma_fx_mul_one(x);
    lemma_fx_mul_one(y);
    assert(x * 0 == 0 && y * 0 == 0) by (nonlinear_arith);
    assert(apply_x(m, x, y) == x + tx && apply_y(m, x, y) == y + ty);
    lemma_fx_mul_one(x + tx);
    lemma_fx_mul_one(y + ty);
    assert((x + tx) * 0 == 0 && (y + ty) * 0 == 0) by (nonlinear_arith);
}

/// Inverse law for uniform scales by a divisor of one (the powers of two
/// up to `65536`): such a scale is always invertible, its inverse is the
/// reciprocal scale, and mapping a point there and back returns it
/// exactly.
pub proof fn lemma_invert_scale(k: int, x: int, y: int)
    requires
        1 <= k,
        (FX_ONE as int) % k == 0,
        abs_i(x * k) <= FX_MAX,
        abs_i(y * k) <= FX_MAX,
    ensures
        is_invertible(Mat { a: k * (FX_ONE as int), b: 0, c: 0, d: k * (FX_ONE as int), e: 0, f: 0 }),
        ({
            let m = Mat {
                a: k * (FX_ONE as int),
                b: 0,
                c: 0,
                d: k * (FX_ONE as int),
                e: 0,
                f: 0,
            };
            let mi = inv_mat(m);
            apply_x(mi, apply_x(m, x, y), apply_y(m, x, y)) == x
                && apply_y(mi, apply_x(m, x, y), apply_y(m, x, y)) == y
        }),
{
    let one = FX_ONE as int;
    let m = Mat { a: k * one, b: 0, c: 0, d: k * one, e: 0, f: 0 };
    let q = one / k;
    vstd::arithmetic::div_mod::lemma_fundamental_div_mod(one, k);
    assert(one == k * q);
    assert(1 <= q <= one && k <= one && one <= k * one <= 0x1_0000_0000) by (nonlinear_arith)
        requires
            one == k * q,
            one == 65536,
            1 <= k,
    ;
    assert(clip_mat(m) == m);
    let det = det2(m);
    assert(det == (k * one) * (k * one));
    assert(det >= 0x1_0000_0000 && det <= 0x1_0000_0000 * 0x1_0000_0000) by (nonlinear_arith)
        requires
            det == (k * one) * (k * one),
            65536 <= k * one <= 0x1_0000_0000,
    ;
    // the linear inverse entries are the reciprocal scale, exactly
    assert((k * one) * 0x1_0000_0000 == det * q) by (nonlinear_arith)
        requires
            det == (k * one) * (k * one),
            one == k * q,
            one == 65536,
    ;
    vstd::arithmetic::div_mod::lemma_div_multiples_vanish(q, det);
    assert(det * q == q * det) by (nonlinear_arith);
    assert(tdiv((k * one) * 0x1_0000_0000, det) == q);
    let mi = inv_mat(m);
    assert(tdiv(0, det) == 0) by {
        assert(abs_i(0) / abs_i(det) == 0) by {
            vstd::arithmetic::div_mod::lemma_div_of0(det);
        }
    };
    assert(mi.a == q && mi.b == 0 && mi.c == 0 && mi.d == q && mi.e == 0 && mi.f == 0);
    // forward: multiplying by the whole scale k is exact
    lemma_fx_mul_exact(x, k);
    lemma_fx_mul_exact(y, k);
    assert(x * 0 == 0 && y * 0 == 0 && (x * k) * 0 == 0 && (y * k) * 0 == 0)
        by (nonlinear_arith);
    assert(apply_x(m, x, y) == x * k && apply_y(m, x, y) == y * k);
    // back: the product with the reciprocal telescopes to the original
    assert((x * k) * q == one * x && (y * k) * q == one * y) by (nonlinear_arith)
        requires
            one == k * q,
    ;
    if x >= 0 {
        vstd::arithmetic::div_mod::lemma_div_multiples_vanish(x, one);
    } else {
        vstd::arithmetic::div_mod::lemma_div_multiples_vanish(-x, one);
        assert(-(one * x) == one * (-x)) by (nonlinear_arith);
    }
    if y >= 0 {
        vstd::arithmetic::div_mod::lemma_div_multiples_vanish(y, one);
    } else {
        vstd::arithmetic::div_mod::lemma_div_multiples_vanish(-y, one);
        assert(-(one * y) == one * (-y)) by (nonlinear_arith);
    }
    assert(abs_i(x) <= abs_i(x * k) && abs_i(y) <= abs_i(y * k)) by (nonlinear_arith)
        requires
            1 <= k,
    ;
    assert(tdiv((x * k) * q, one) == x);
    assert(tdiv((y * k) * q, one) == y);
    assert(fx_mul_spec(x * k, q) == x);
    assert(fx_mul_spec(y * k, q) == y);
}

/// The truncation error of one fixed-point product: scaled back up, the
/// result is within one unit of the exact product.
proof fn lemma_mul_err(p: int, q: int)
    requires
        abs_i(p * q) <= FX_MAX * 65536,
    ensures
        65536 * fx_mul_spec(p, q) - p * q <= 65535,
        p * q - 65536 * fx_mul_spec(p, q) <= 65535,
        65536 * abs_i(fx_mul_spec(p, q)) <= abs_i(p * q),
{
    let n = p * q;
    let g = abs_i(n);
    vstd::arithmetic::div_mod::lemma_div_pos_is_pos(g, 65536);
    vstd::arithmetic::div_mod::lemma_div_is_ordered(g, FX_MAX * 65536, 65536);
    vstd::arithmetic::div_mod::lemma_div_multiples_vanish(FX_MAX as int, 65536);
    vstd::arithmetic::div_mod::lemma_fundamental_div_mod(g, 65536);
    vstd::arithmetic::div_mod::lemma_mod_division_less_than_divisor(g, 65536);
    assert(tdiv(n, 65536) == if n >= 0 {
        g / 65536
    } else {
        -(g / 65536)
    });
    assert(fx_mul_spec(p, q) == tdiv(n, 65536));
}

/// The canonical exact-arithmetic value that both sides of one coordinate
/// of the composition law approximate, scaled by `65536^2`.
spec fn compose_coord_exact(
    ba: int,
    bb: int,
    bc: int,
    bd: int,
    be: int,
    bf: int,
    aa: int,
    ac: int,
    ae: int,
    x: int,
    y: int,
) -> int {
    (x * ba) * aa + (x * bb) * ac + (y * bc) * aa + (y * bd) * ac + 65536 * (be * aa) + 65536 * (
    bf * ac) + 65536 * (65536 * ae)
}

/// Entry bounds for the approximate composition law: `0x200_0000` raw is
/// `512` in real-number units.
spec fn coord_bounded(v: int) -> bool {
    abs_i(v) <= 0x200_0000
}

/// The composite-then-apply side of one coordinate stays within its
/// accumulated rounding error of the exact value.
#[verifier::rlimit(100)]
proof fn lemma_compose_coord_lhs(
    ba: int,
    bb: int,
    bc: int,
    bd: int,
    be: int,
    bf: int,
    aa: int,
    ac: int,
    ae: int,
    x: int,
    y: int,
)
    requires
        coord_bounded(ba),
        coord_bounded(bb),
        coord_bounded(bc),
        coord_bounded(bd),
        coord_bounded(be),
        coord_bounded(bf),
        coord_bounded(aa),
        coord_bounded(ac),
        coord_bounded(ae),
        coord_bounded(x),
        coord_bounded(y),
    ensures
        ({
            let ma = fx_add_spec(fx_mul_spec(ba, aa), fx_mul_spec(bb, ac));
            let mc = fx_add_spec(fx_mul_spec(bc, aa), fx_mul_spec(bd, ac));
            let me = fx_add_spec(fx_add_spec(fx_mul_spec(be, aa), fx_mul_spec(bf, ac)), ae);
            let lhs = fx_add_spec(fx_add_spec(fx_mul_spec(x, ma), fx_mul_spec(y, mc)), me);
            abs_i(65536 * (65536 * lhs) - compose_coord_exact(
                ba,
                bb,
                bc,
                bd,
                be,
                bf,
                aa,
                ac,
                ae,
                x,
                y,
            )) <= 8813138411520
        }),
{
    assert(abs_i(ba * aa) <= 0x4_0000_0000_0000 && abs_i(bb * ac) <= 0x4_0000_0000_0000
        && abs_i(bc * aa) <= 0x4_0000_0000_0000 && abs_i(bd * ac) <= 0x4_0000_0000_0000
        && abs_i(be * aa) <= 0x4_0000_0000_0000 && abs_i(bf * ac) <= 0x4_0000_0000_0000)
        by (nonlinear_arith)
        requires
            abs_i(ba) <= 0x200_0000,
            abs_i(bb) <= 0x200_0000,
            abs_i(bc) <= 0x200_0000,
            abs_i(bd) <= 0x200_0000,
            abs_i(be) <= 0x200_0000,
            abs_i(bf) <= 0x200_0000,
            abs_i(aa) <= 0x200_0000,
            abs_i(ac) <= 0x200_0000,
    ;
    lemma_mul_err(ba, aa);
    lemma_mul_err(bb, ac);
    lemma_mul_err(bc, aa);
    lemma_mul_err(bd, ac);
    lemma_mul_err(be, aa);
    lemma_mul_err(bf, ac);
    let e1 = 65536 * fx_mul_spec(ba, aa) - ba * aa;
    let e2 = 65536 * fx_mul_spec(bb, ac) - bb * ac;
    let e3 = 65536 * fx_mul_spec(bc, aa) - bc * aa;
    let e4 = 65536 * fx_mul_spec(bd, ac) - bd * ac;
    let e5 = 65536 * fx_mul_spec(be, aa) - be * aa;
    let e6 = 65536 * fx_mul_spec(bf, ac) - bf * ac;
    let ma = fx_add_spec(fx_mul_spec(ba, aa), fx_mul_spec(bb, ac));
    let mc = fx_add_spec(fx_mul_spec(bc, aa), fx_mul_spec(bd, ac));
    let me = fx_add_spec(fx_add_spec(fx_mul_spec(be, aa), fx_mul_spec(bf, ac)), ae);
    assert(65536 * ma == ba * aa + bb * ac + e1 + e2);
    assert(65536 * mc == bc * aa + bd * ac + e3 + e4);
    assert(65536 * me == be * aa + bf * ac + e5 + e6 + 65536 * ae);
    assert(abs_i(ma) <= 0x8_0201_0000 && abs_i(mc) <= 0x8_0201_0000 && abs_i(me)
        <= 0x8_0201_0000);
    assert(abs_i(x * ma) <= 0x200_0000 * 0x8_0201_0000 && abs_i(y * mc) <= 0x200_0000
        * 0x8_0201_0000) by (nonlinear_arith)
        requires
            abs_i(x) <= 0x200_0000,
            abs_i(y) <= 0x200_0000,
            abs_i(ma) <= 0x8_0201_0000,
            abs_i(mc) <= 0x8_0201_0000,
    ;
    lemma_mul_err(x, ma);
    lemma_mul_err(y, mc);
    let f1 = 65536 * fx_mul_spec(x, ma) - x * ma;
    let f2 = 65536 * fx_mul_spec(y, mc) - y * mc;
    let lhs = fx_add_spec(fx_add_spec(fx_mul_spec(x, ma), fx_mul_spec(y, mc)), me);
    assert(65536 * lhs == x * ma + y * mc + 65536 * me + f1 + f2);
    assert(65536 * (x * ma) == x * (65536 * ma) && 65536 * (y * mc) == y * (65536 * mc))
        by (nonlinear_arith);
    assert(x * (ba * aa + bb * ac + e1 + e2) == x * (ba * aa) + x * (bb * ac) + x * e1 + x * e2)
        by (nonlinear_arith);
    assert(y * (bc * aa + bd * ac + e3 + e4) == y * (bc * aa) + y * (bd * ac) + y * e3 + y * e4)
        by (nonlinear_arith);
    assert(x * (ba * aa) == (x * ba) * aa && x * (bb * ac) == (x * bb) * ac && y * (bc * aa) == (
    y * bc) * aa && y * (bd * ac) == (y * bd) * ac) by (nonlinear_arith);
    assert(abs_i(x * e1) <= 0x1FF_FE00_0000 && abs_i(x * e2) <= 0x1FF_FE00_0000 && abs_i(y * e3)
        <= 0x1FF_FE00_0000 && abs_i(y * e4) <= 0x1FF_FE00_0000) by (nonlinear_arith)
        requires
            abs_i(x) <= 0x200_0000,
            abs_i(y) <= 0x200_0000,
            abs_i(e1) <= 65535,
            abs_i(e2) <= 65535,
            abs_i(e3) <= 65535,
            abs_i(e4) <= 65535,
    ;
    assert(65536 * (65536 * lhs) - compose_coord_exact(ba, bb, bc, bd, be, bf, aa, ac, ae, x, y)
        == x * e1 + x * e2 + y * e3 + y * e4 + 65536 * e5 + 65536 * e6 + 65536 * f1 + 65536
        * f2);
}

/// The apply-twice side of one coordinate stays within its accumulated
/// rounding error of the exact value.
#[verifier::rlimit(100)]
proof fn lemma_compose_coord_rhs(
    ba: int,
    bb: int,
    bc: int,
    bd: int,
    be: int,
    bf: int,
    aa: int,
    ac: int,
    ae: int,
    x: int,
    y: int,
)
    requires
        coord_bounded(ba),
        coord_bounded(bb),
        coord_bounded(bc),
        coord_bounded(bd),
        coord_bounded(be),
        coord_bounded(bf),
        coord_bounded(aa),
        coord_bounded(ac),
        coord_bounded(ae),
        coord_bounded(x),
        coord_bounded(y),
    ensures
        ({
            let bx = fx_add_spec(fx_add_spec(fx_mul_spec(x, ba), fx_mul_spec(y, bc)), be);
            let by = fx_add_spec(fx_add_spec(fx_mul_spec(x, bb), fx_mul_spec(y, bd)), bf);
            let rhs = fx_add_spec(fx_add_spec(fx_mul_spec(bx, aa), fx_mul_spec(by, ac)), ae);
            abs_i(65536 * (65536 * rhs) - compose_coord_exact(
                ba,
                bb,
                bc,
                bd,
                be,
                bf,
                aa,
                ac,
                ae,
                x,
                y,
            )) <= 8804548608000
        }),
{
    assert(abs_i(x * ba) <= 0x4_0000_0000_0000 && abs_i(y * bc) <= 0x4_0000_0000_0000 && abs_i(
        x * bb,
    ) <= 0x4_0000_0000_0000 && abs_i(y * bd) <= 0x4_0000_0000_0000) by (nonlinear_arith)
        requires
            abs_i(ba) <= 0x200_0000,
            abs_i(bb) <= 0x200_0000,
            abs_i(bc) <= 0x200_0000,
            abs_i(bd) <= 0x200_0000,
            abs_i(x) <= 0x200_0000,
            abs_i(y) <= 0x200_0000,
    ;
    lemma_mul_err(x, ba);
    lemma_mul_err(y, bc);
    lemma_mul_err(x, bb);
    lemma_mul_err(y, bd);
    let g1 = 65536 * fx_mul_spec(x, ba) - x * ba;
    let g2 = 65536 * fx_mul_spec(y, bc) - y * bc;
    let g3 = 65536 * fx_mul_spec(x, bb) - x * bb;
    let g4 = 65536 * fx_mul_spec(y, bd) - y * bd;
    let bx = fx_add_spec(fx_add_spec(fx_mul_spec(x, ba), fx_mul_spec(y, bc)), be);
    let by = fx_add_spec(fx_add_spec(fx_mul_spec(x, bb), fx_mul_spec(y, bd)), bf);
    assert(65536 * bx == x * ba + y * bc + 65536 * be + g1 + g2);
    assert(65536 * by == x * bb + y * bd + 65536 * bf + g3 + g4);
    assert(abs_i(bx) <= 0x8_0201_0000 && abs_i(by) <= 0x8_0201_0000);
    assert(abs_i(bx * aa) <= 0x200_0000 * 0x8_0201_0000 && abs_i(by * ac) <= 0x200_0000
        * 0x8_0201_0000) by (nonlinear_arith)
        requires
            abs_i(aa) <= 0x200_0000,
            abs_i(ac) <= 0x200_0000,
            abs_i(bx) <= 0x8_0201_0000,
            abs_i(by) <= 0x8_0201_0000,
    ;
    lemma_mul_err(bx, aa);
    lemma_mul_err(by, ac);
    let h1 = 65536 * fx_mul_spec(bx, aa) - bx * aa;
    let h2 = 65536 * fx_mul_spec(by, ac) - by * ac;
    let rhs = fx_add_spec(fx_add_spec(fx_mul_spec(bx, aa), fx_mul_spec(by, ac)), ae);
    assert(65536 * rhs == bx * aa + by * ac + 65536 * ae + h1 + h2);
    assert(65536 * (bx * aa) == (65536 * bx) * aa && 65536 * (by * ac) == (65536 * by) * ac)
        by (nonlinear_arith);
    assert((x * ba + y * bc + 65536 * be + g1 + g2) * aa == (x * ba) * aa + (y * bc) * aa + 65536
        * (be * aa) + g1 * aa + g2 * aa) by (nonlinear_arith);
    assert((x * bb + y * bd + 65536 * bf + g3 + g4) * ac == (x * bb) * ac + (y * bd) * ac + 65536
        * (bf * ac) + g3 * ac + g4 * ac) by (nonlinear_arith);
    assert(abs_i(g1 * aa) <= 0x1FF_FE00_0000 && abs_i(g2 * aa) <= 0x1FF_FE00_0000 && abs_i(
        g3 * ac,
    ) <= 0x1FF_FE00_0000 && abs_i(g4 * ac) <= 0x1FF_FE00_0000) by (nonlinear_arith)
        requires
            abs_i(aa) <= 0x200_0000,
            abs_i(ac) <= 0x200_0000,
            abs_i(g1) <= 65535,
            abs_i(g2) <= 65535,
            abs_i(g3) <= 65535,
            abs_i(g4) <= 65535,
    ;
    assert(65536 * (65536 * rhs) - compose_coord_exact(ba, bb, bc, bd, be, bf, aa, ac, ae, x, y)
        == g1 * aa + g2 * aa + g3 * ac + g4 * ac + 65536 * h1 + 65536 * h2);
}

/// One coordinate of the approximate composition law: the two sides agree
/// within the accumulated rounding error.
proof fn lemma_compose_coord(
    ba: int,
    bb: int,
    bc: int,
    bd: int,
    be: int,
    bf: int,
    aa: int,
    ac: int,
    ae: int,
    x: int,
    y: int,
)
    requires
        coord_bounded(ba),
        coord_bounded(bb),
        coord_bounded(bc),
        coord_bounded(bd),
        coord_bounded(be),
        coord_bounded(bf),
        coord_bounded(aa),
        coord_bounded(ac),
        coord_bounded(ae),
        coord_bounded(x),
        coord_bounded(y),
    ensures
        ({
            let ma = fx_add_spec(fx_mul_spec(ba, aa), fx_mul_spec(bb, ac));
            let mc = fx_add_spec(fx_mul_spec(bc, aa), fx_mul_spec(bd, ac));
            let me = fx_add_spec(fx_add_spec(fx_mul_spec(be, aa), fx_mul_spec(bf, ac)), ae);
            let lhs = fx_add_spec(fx_add_spec(fx_mul_spec(x, ma), fx_mul_spec(y, mc)), me);
            let bx = fx_add_spec(fx_add_spec(fx_mul_spec(x, ba), fx_mul_spec(y, bc)), be);
            let by = fx_add_spec(fx_add_spec(fx_mul_spec(x, bb), fx_mul_spec(y, bd)), bf);
            let rhs = fx_add_spec(fx_add_spec(fx_mul_spec(bx, aa), fx_mul_spec(by, ac)), ae);
            abs_i(lhs - rhs) <= 4102
        }),
{
    lemma_compose_coord_lhs(ba, bb, bc, bd, be, bf, aa, ac, ae, x, y);
    lemma_compose_coord_rhs(ba, bb, bc, bd, be, bf, aa, ac, ae, x, y);
    let ma = fx_add_spec(fx_mul_spec(ba, aa), fx_mul_spec(bb, ac));
    let mc = fx_add_spec(fx_mul_spec(bc, aa), fx_mul_spec(bd, ac));
    let me = fx_add_spec(fx_add_spec(fx_mul_spec(be, aa), fx_mul_spec(bf, ac)), ae);
    let lhs = fx_add_spec(fx_add_spec(fx_mul_spec(x, ma), fx_mul_spec(y, mc)), me);
    let bx = fx_add_spec(fx_add_spec(fx_mul_spec(x, ba), fx_mul_spec(y, bc)), be);
    let by = fx_add_spec(fx_add_spec(fx_mul_spec(x, bb), fx_mul_spec(y, bd)), bf);
    let rhs = fx_add_spec(fx_add_spec(fx_mul_spec(bx, aa), fx_mul_spec(by, ac)), ae);
    let exact = compose_coord_exact(ba, bb, bc, bd, be, bf, aa, ac, ae, x, y);
    assert(abs_i(65536 * (65536 * lhs) - 65536 * (65536 * rhs)) <= 17617687019520);
    assert(65536 * (65536 * (lhs - rhs)) == 65536 * (65536 * lhs) - 65536 * (65536 * rhs))
        by (nonlinear_arith);
    assert(abs_i(lhs - rhs) <= 4102) by (nonlinear_arith)
        requires
            abs_i(65536 * (65536 * (lhs - rhs))) <= 17617687019520,
    ;
}

/// All six entries within the approximate composition law's domain
/// (`512` in real-number units).
pub open spec fn mat_moderate(m: Mat) -> bool {
    abs_i(m.a) <= 0x200_0000 && abs_i(m.b) <= 0x200_0000 && abs_i(m.c) <= 0x200_0000 && abs_i(
        m.d,
    ) <= 0x200_0000 && abs_i(m.e) <= 0x200_0000 && abs_i(m.f) <= 0x200_0000
}

/// Approximate composition law: for any moderately-sized transforms `a`
/// and `b` and point `p`, mapping `p` through the composite `a * b` agrees
/// with mapping it through `b` and then through `a`, within the
/// accumulated fixed-point rounding error of `4102` raw units (about
/// `0.063` in real-number units).
pub proof fn lemma_compose_apply_close(a: Mat, b: Mat, x: int, y: int)
    requires
        mat_moderate(a),
        mat_moderate(b),
        abs_i(x) <= 0x200_0000,
        abs_i(y) <= 0x200_0000,
    ensures
        abs_i(apply_x(mul_mat(a, b), x, y) - apply_x(a, apply_x(b, x, y), apply_y(b, x, y)))
            <= 4102,
        abs_i(apply_y(mul_mat(a, b), x, y) - apply_y(a, apply_x(b, x, y), apply_y(b, x, y)))
            <= 4102,
{
    lemma_compose_coord(b.a, b.b, b.c, b.d, b.e, b.f, a.a, a.c, a.e, x, y);
    lemma_compose_coord(b.a, b.b, b.c, b.d, b.e, b.f, a.b, a.d, a.f, x, y);
}

/// A matrix whose linear entries are whole multiples of one: fixed-point
/// arithmetic on such a matrix is exact, so the algebraic laws hold exactly.
pub open spec fn mat_integer(m: Mat) -> bool {
    m.a % (FX_ONE as int) == 0 && m.b % (FX_ONE as int) == 0 && m.c % (FX_ONE as int) == 0
        && m.d % (FX_ONE as int) == 0
}

/// Entry bounds under which the composition law stays clear of saturation:
/// linear entries up to 256 (in real-number units), translations up to
/// `2^24` raw.
pub open spec fn mat_small(m: Mat) -> bool {
    abs_i(m.a) <= 0x100_0000 && abs_i(m.b) <= 0x100_0000 && abs_i(m.c) <= 0x100_0000
        && abs_i(m.d) <= 0x100_0000 && abs_i(m.e) <= 0x100_0000 && abs_i(m.f) <= 0x100_0000
}

/// On an integer-valued matrix, the fixed-point application of the map is
/// the exact integer polynomial, as long as all terms stay representable.
proof fn lemma_apply_int(m: Mat, x: int, y: int, kb: int, eb: int, xb: int)
    requires
        mat_integer(m),
        0 <= kb,
        0 <= eb,
        0 <= xb,
        abs_i(m.a) <= 65536 * kb,
        abs_i(m.b) <= 65536 * kb,
        abs_i(m.c) <= 65536 * kb,
        abs_i(m.d) <= 65536 * kb,
        abs_i(m.e) <= eb,
        abs_i(m.f) <= eb,
        abs_i(x) <= xb,
        abs_i(y) <= xb,
        2 * (xb * kb) + eb <= FX_MAX,
    ensures
        apply_x(m, x, y) == x * (m.a / 65536) + y * (m.c / 65536) + m.e,
        apply_y(m, x, y) == x * (m.b / 65536) + y * (m.d / 65536) + m.f,
        abs_i(apply_x(m, x, y)) <= 2 * (xb * kb) + eb,
        abs_i(apply_y(m, x, y)) <= 2 * (xb * kb) + eb,
{
    let ka = m.a / 65536;
    let kbb = m.b / 65536;
    let kc = m.c / 65536;
    let kd = m.d / 65536;
    vstd::arithmetic::div_mod::lemma_fundamental_div_mod(m.a, 65536);
    vstd::arithmetic::div_mod::lemma_fundamental_div_mod(m.b, 65536);
    vstd::arithmetic::div_mod::lemma_fundamental_div_mod(m.c, 65536);
    vstd::arithmetic::div_mod::lemma_fundamental_div_mod(m.d, 65536);
    assert(abs_i(ka) <= kb && abs_i(kbb) <= kb && abs_i(kc) <= kb && abs_i(kd) <= kb)
        by (nonlinear_arith)
        requires
            m.a == 65536 * ka && m.b == 65536 * kbb && m.c == 65536 * kc && m.d == 65536 * kd,
            abs_i(m.a) <= 65536 * kb,
            abs_i(m.b) <= 65536 * kb,
            abs_i(m.c) <= 65536 * kb,
            abs_i(m.d) <= 65536 * kb,
            0 <= kb,
    ;
    assert(abs_i(x * ka) <= xb * kb && abs_i(y * kc) <= xb * kb && abs_i(x * kbb) <= xb * kb
        && abs_i(y * kd) <= xb * kb && 0 <= xb * kb) by (nonlinear_arith)
        requires
            abs_i(ka) <= kb && abs_i(kbb) <= kb && abs_i(kc) <= kb && abs_i(kd) <= kb,
            abs_i(x) <= xb,
            abs_i(y) <= xb,
            0 <= kb,
            0 <= xb,
    ;
    lemma_fx_mul_exact(x, ka);
    lemma_fx_mul_exact(y, kc);
    lemma_fx_mul_exact(x, kbb);
    lemma_fx_mul_exact(y, kd);
}

/// The composition of two small integer-valued matrices is computed exactly
/// by fixed-point arithmetic, and is itself integer-valued.
proof fn lemma_mul_mat_int(a: Mat, b: Mat)
    requires
        mat_integer(a),
        mat_small(a),
        mat_integer(b),
        mat_small(b),
    ensures
        mat_integer(mul_mat(a, b)),
        mul_mat(a, b).a == 65536 * ((b.a / 65536) * (a.a / 65536) + (b.b / 65536) * (a.c
            / 65536)),
        mul_mat(a, b).b == 65536 * ((b.a / 65536) * (a.b / 65536) + (b.b / 65536) * (a.d
            / 65536)),
        mul_mat(a, b).c == 65536 * ((b.c / 65536) * (a.a / 65536) + (b.d / 65536) * (a.c
            / 65536)),
        mul_mat(a, b).d == 65536 * ((b.c / 65536) * (a.b / 65536) + (b.d / 65536) * (a.d
            / 65536)),
        mul_mat(a, b).e == b.e * (a.a / 65536) + b.f * (a.c / 65536) + a.e,
        mul_mat(a, b).f == b.e * (a.b / 65536) + b.f * (a.d / 65536) + a.f,
        abs_i(mul_mat(a, b).a) <= 0x2_0000_0000,
        abs_i(mul_mat(a, b).b) <= 0x2_0000_0000,
        abs_i(mul_mat(a, b).c) <= 0x2_0000_0000,
        abs_i(mul_mat(a, b).d) <= 0x2_0000_0000,
        abs_i(mul_mat(a, b).e) <= 0x2_2000_0000,
        abs_i(mul_mat(a, b).f) <= 0x2_2000_0000,
{
    let aa = a.a / 65536;
    let ab = a.b / 65536;
    let ac = a.c / 65536;
    let ad = a.d / 65536;
    let ba = b.a / 65536;
    let bb = b.b / 65536;
    let bc = b.c / 65536;
    let bd = b.d / 65536;
    vstd::arithmetic::div_mod::lemma_fundamental_div_mod(a.a, 65536);
    vstd::arithmetic::div_mod::lemma_fundamental_div_mod(a.b, 65536);
    vstd::arithmetic::div_mod::lemma_fundamental_div_mod(a.c, 65536);
    vstd::arithmetic::div_mod::lemma_fundamental_div_mod(a.d, 65536);
    vstd::arithmetic::div_mod::lemma_fundamental_div_mod(b.a, 65536);
    vstd::arithmetic::div_mod::lemma_fundamental_div_mod(b.b, 65536);
    vstd::arithmetic::div_mod::lemma_fundamental_div_mod(b.c, 65536);
    vstd::arithmetic::div_mod::lemma_fundamental_div_mod(b.d, 65536);
    assert(abs_i(aa) <= 256 && abs_i(ab) <= 256 && abs_i(ac) <= 256 && abs_i(ad) <= 256
        && abs_i(ba) <= 256 && abs_i(bb) <= 256 && abs_i(bc) <= 256 && abs_i(bd) <= 256)
        by (nonlinear_arith)
        requires
            a.a == 65536 * aa && a.b == 65536 * ab && a.c == 65536 * ac && a.d == 65536 * ad,
            b.a == 65536 * ba && b.b == 65536 * bb && b.c == 65536 * bc && b.d == 65536 * bd,
            abs_i(a.a) <= 0x100_0000 && abs_i(a.b) <= 0x100_0000 && abs_i(a.c) <= 0x100_0000
                && abs_i(a.d) <= 0x100_0000,
            abs_i(b.a) <= 0x100_0000 && abs_i(b.b) <= 0x100_0000 && abs_i(b.c) <= 0x100_0000
                && abs_i(b.d) <= 0x100_0000,
    ;
    assert(abs_i(b.a * aa) <= 0x1_0000_0000 && abs_i(b.b * ac) <= 0x1_0000_0000
        && abs_i(b.a * ab) <= 0x1_0000_0000 && abs_i(b.b * ad) <= 0x1_0000_0000
        && abs_i(b.c * aa) <= 0x1_0000_0000 && abs_i(b.d * ac) <= 0x1_0000_0000
        && abs_i(b.c * ab) <= 0x1_0000_0000 && abs_i(b.d * ad) <= 0x1_0000_0000
        && abs_i(b.e * aa) <= 0x1_0000_0000 && abs_i(b.f * ac) <= 0x1_0000_0000
        && abs_i(b.e * ab) <= 0x1_0000_0000 && abs_i(b.f * ad) <= 0x1_0000_0000)
        by (nonlinear_arith)
        requires
            abs_i(aa) <= 256 && abs_i(ab) <= 256 && abs_i(ac) <= 256 && abs_i(ad) <= 256,
            abs_i(b.a) <= 0x100_0000 && abs_i(b.b) <= 0x100_0000 && abs_i(b.c) <= 0x100_0000
                && abs_i(b.d) <= 0x100_0000 && abs_i(b.e) <= 0x100_0000 && abs_i(b.f)
                <= 0x100_0000,
    ;
    lemma_fx_mul_exact(b.a, aa);
    lemma_fx_mul_exact(b.b, ac);
    lemma_fx_mul_exact(b.a, ab);
    lemma_fx_mul_exact(b.b, ad);
    lemma_fx_mul_exact(b.c, aa);
    lemma_fx_mul_exact(b.d, ac);
    lemma_fx_mul_exact(b.c, ab);
    lemma_fx_mul_exact(b.d, ad);
    lemma_fx_mul_exact(b.e, aa);
    lemma_fx_mul_exact(b.f, ac);
    lemma_fx_mul_exact(b.e, ab);
    lemma_fx_mul_exact(b.f, ad);
    assert(b.a * aa + b.b * ac == 65536 * (ba * aa + bb * ac)
        && b.a * ab + b.b * ad == 65536 * (ba * ab + bb * ad)
        && b.c * aa + b.d * ac == 65536 * (bc * aa + bd * ac)
        && b.c * ab + b.d * ad == 65536 * (bc * ab + bd * ad)) by (nonlinear_arith)
        requires
            b.a == 65536 * ba && b.b == 65536 * bb && b.c == 65536 * bc && b.d == 65536 * bd,
    ;
    assert((65536 * (ba * aa + bb * ac)) % 65536 == 0
        && (65536 * (ba * ab + bb * ad)) % 65536 == 0
        && (65536 * (bc * aa + bd * ac)) % 65536 == 0
        && (65536 * (bc * ab + bd * ad)) % 65536 == 0) by (nonlinear_arith);
}

/// Composition law: for small integer-valued transforms `a` and `b`, mapping
/// a point through the composite `a * b` equals mapping it through `b` and
/// then through `a`, exactly.
pub proof fn lemma_compose_apply(a: Mat, b: Mat, x: int, y: int)
    requires
        mat_integer(a),
        mat_small(a),
        mat_integer(b),
        mat_small(b),
        abs_i(x) <= 0x100_0000,
        abs_i(y) <= 0x100_0000,
    ensures
        apply_x(mul_mat(a, b), x, y) == apply_x(a, apply_x(b, x, y), apply_y(b, x, y)),
        apply_y(mul_mat(a, b), x, y) == apply_y(a, apply_x(b, x, y), apply_y(b, x, y)),
{
    let bx = apply_x(b, x, y);
    let by = apply_y(b, x, y);
    lemma_apply_int(b, x, y, 256, 0x100_0000, 0x100_0000);
    lemma_apply_int(a, bx, by, 256, 0x100_0000, 0x2_2000_0000);
    lemma_mul_mat_int(a, b);
    let m = mul_mat(a, b);
    lemma_apply_int(m, x, y, 0x2_0000, 0x2_2000_0000, 0x100_0000);
    let aa = a.a / 65536;
    let ab = a.b / 65536;
    let ac = a.c / 65536;
    let ad = a.d / 65536;
    let ba = b.a / 65536;
    let bb = b.b / 65536;
    let bc = b.c / 65536;
    let bd = b.d / 65536;
    assert(m.a / 65536 == ba * aa + bb * ac && m.b / 65536 == ba * ab + bb * ad && m.c / 65536
        == bc * aa + bd * ac && m.d / 65536 == bc * ab + bd * ad) by {
        vstd::arithmetic::div_mod::lemma_div_multiples_vanish(ba * aa + bb * ac, 65536);
        vstd::arithmetic::div_mod::lemma_div_multiples_vanish(ba * ab + bb * ad, 65536);
        vstd::arithmetic::div_mod::lemma_div_multiples_vanish(bc * aa + bd * ac, 65536);
        vstd::arithmetic::div_mod::lemma_div_multiples_vanish(bc * ab + bd * ad, 65536);
    };
    assert(x * (ba * aa + bb * ac) == (x * ba) * aa + (x * bb) * ac) by (nonlinear_arith);
    assert(y * (bc * aa + bd * ac) == (y * bc) * aa + (y * bd) * ac) by (nonlinear_arith);
    assert(x * (ba * ab + bb * ad) == (x * ba) * ab + (x * bb) * ad) by (nonlinear_arith);
    assert(y * (bc * ab + bd * ad) == (y * bc) * ab + (y * bd) * ad) by (nonlinear_arith);
    assert((x * ba + y * bc + b.e) * aa == (x * ba) * aa + (y * bc) * aa + b.e * aa)
        by (nonlinear_arith);
    assert((x * bb + y * bd + b.f) * ac == (x * bb) * ac + (y * bd) * ac + b.f * ac)
        by (nonlinear_arith);
    assert((x * ba + y * bc + b.e) * ab == (x * ba) * ab + (y * bc) * ab + b.e * ab)
        by (nonlinear_arith);
    assert((x * bb + y * bd + b.f) * ad == (x * bb) * ad + (y * bd) * ad + b.f * ad)
        by (nonlinear_arith);
}

/// The inversion arithmetic on already-saturated entries.
#[verifier::rlimit(100)]
fn invert_clamped(a: Fx, b: Fx, c: Fx, d: Fx, e: Fx, f: Fx) -> (r: Option<Transform>)
    requires
        abs_i(a as int) <= FX_MAX,
        abs_i(b as int) <= FX_MAX,
        abs_i(c as int) <= FX_MAX,
        abs_i(d as int) <= FX_MAX,
        abs_i(e as int) <= FX_MAX,
        abs_i(f as int) <= FX_MAX,
    ensures
        r is Some <==> abs_i((a as int) * (d as int) - (c as int) * (b as int)) >= DET_EPS2 as int,
        r matches Some(t) ==> ({
            let det = (a as int) * (d as int) - (c as int) * (b as int);
            t@ == (Mat {
                a: fx_clip(tdiv((d as int) * 0x1_0000_0000, det)),
                b: fx_clip(tdiv(-(b as int) * 0x1_0000_0000, det)),
                c: fx_clip(tdiv(-(c as int) * 0x1_0000_0000, det)),
                d: fx_clip(tdiv((a as int) * 0x1_0000_0000, det)),
                e: fx_clip(
                    tdiv(((c as int) * (f as int) - (d as int) * (e as int)) * (FX_ONE as int), det),
                ),
                f: fx_clip(
                    tdiv(((b as int) * (e as int) - (a as int) * (f as int)) * (FX_ONE as int), det),
                ),
            })
        }),
{
    proof {
        lemma_entry_products(a as int, b as int, c as int, d as int, e as int, f as int);
    }
    let wa: i128 = a as i128;
    let wb: i128 = b as i128;
    let wc: i128 = c as i128;
    let wd: i128 = d as i128;
    let we: i128 = e as i128;
    let wf: i128 = f as i128;
    let det: i128 = wa * wd - wc * wb;
    if det > -DET_EPS2 && det < DET_EPS2 {
        None
    } else {
        let r0: Fx = div_wide(wd * 0x1_0000_0000, det);
        let r1: Fx = div_wide(-wb * 0x1_0000_0000, det);
        let r2: Fx = div_wide(-wc * 0x1_0000_0000, det);
        let r3: Fx = div_wide(wa * 0x1_0000_0000, det);
        let r4: Fx = div_wide((wc * wf - wd * we) * (FX_ONE as i128), det);
        let r5: Fx = div_wide((wb * we - wa * wf) * (FX_ONE as i128), det);
        Some(Transform { m: [r0, r1, r2, r3, r4, r5] })
    }
}

/// Bounds on products of saturated matrix entries, to justify the wide
/// intermediate arithmetic of inversion.
proof fn lemma_entry_products(a: int, b: int, c: int, d: int, e: int, f: int)
    requires
        abs_i(a) <= FX_MAX,
        abs_i(b) <= FX_MAX,
        abs_i(c) <= FX_MAX,
        abs_i(d) <= FX_MAX,
        abs_i(e) <= FX_MAX,
        abs_i(f) <= FX_MAX,
    ensures
        abs_i(a * d) <= 0x4000_0000_0000_0000_0000_0000,
        abs_i(c * b) <= 0x4000_0000_0000_0000_0000_0000,
        abs_i(c * f) <= 0x4000_0000_0000_0000_0000_0000,
        abs_i(d * e) <= 0x4000_0000_0000_0000_0000_0000,
        abs_i(b * e) <= 0x4000_0000_0000_0000_0000_0000,
        abs_i(a * f) <= 0x4000_0000_0000_0000_0000_0000,
        abs_i(a * 0x1_0000_0000) <= 0x8000_0000_0000_0000_0000_0000,
        abs_i(b * 0x1_0000_0000) <= 0x8000_0000_0000_0000_0000_0000,
        abs_i(c * 0x1_0000_0000) <= 0x8000_0000_0000_0000_0000_0000,
        abs_i(d * 0x1_0000_0000) <= 0x8000_0000_0000_0000_0000_0000,
        abs_i((c * f - d * e) * (FX_ONE as int)) <= 0x8000_0000_0000_0000_0000_0000_0000,
        abs_i((b * e - a * f) * (FX_ONE as int)) <= 0x8000_0000_0000_0000_0000_0000_0000,
{
    assert(abs_i(a * d) <= 0x4000_0000_0000_0000_0000_0000
        && abs_i(c * b) <= 0x4000_0000_0000_0000_0000_0000
        && abs_i(c * f) <= 0x4000_0000_0000_0000_0000_0000
        && abs_i(d * e) <= 0x4000_0000_0000_0000_0000_0000
        && abs_i(b * e) <= 0x4000_0000_0000_0000_0000_0000
        && abs_i(a * f) <= 0x4000_0000_0000_0000_0000_0000
        && abs_i(a * 0x1_0000_0000) <= 0x8000_0000_0000_0000_0000_0000
        && abs_i(b * 0x1_0000_0000) <= 0x8000_0000_0000_0000_0000_0000
        && abs_i(c * 0x1_0000_0000) <= 0x8000_0000_0000_0000_0000_0000
        && abs_i(d * 0x1_0000_0000) <= 0x8000_0000_0000_0000_0000_0000
        && abs_i((c * f - d * e) * (FX_ONE as int)) <= 0x8000_0000_0000_0000_0000_0000_0000
        && abs_i((b * e - a * f) * (FX_ONE as int)) <= 0x8000_0000_0000_0000_0000_0000_0000)
        by (nonlinear_arith)
        requires
            abs_i(a) <= FX_MAX,
            abs_i(b) <= FX_MAX,
            abs_i(c) <= FX_MAX,
            abs_i(d) <= FX_MAX,
            abs_i(e) <= FX_MAX,
            abs_i(f) <= FX_MAX,
            FX_MAX == 0x7fff_ffff_ffff,
            FX_ONE == 0x1_0000,
    ;
}

/// Truncating division of wide exact intermediates, saturated into the
/// scalar range.
fn div_wide(n: i128, d: i128) -> (r: Fx)
    requires
        d != 0,
    ensures
        r as int == fx_clip(tdiv(n as int, d as int)),
{
    let neg: bool = (n < 0) != (d < 0);
    let magn: u128 = crate::fixed::mag_i128(n);
    let magd: u128 = crate::fixed::mag_i128(d);
    proof {
        crate::fixed::lemma_tdiv_signs(n as int, d as int);
    }
    crate::fixed::div_mag(magn, magd, neg)
}

} // verus!
