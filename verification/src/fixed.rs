//! Fixed-point scalar arithmetic.
//!
//! Every scalar in this crate is an [`Fx`]: a signed 16.16 fixed-point number
//! held in an `i64`. The raw integer `v` stands for the real number
//! `v / 65536`. All operations saturate into the symmetric range
//! `[-FX_MAX, FX_MAX]`, so no operation panics and every result is pinned
//! exactly by a spec-level model over `int`.

use vstd::prelude::*;

verus! {

/// A signed 16.16 fixed-point scalar: the raw value `v` stands for `v / 65536`.
pub type Fx = i64;

/// The fixed-point representation of the real number one.
pub const FX_ONE: i64 = 65536;

/// Half of [`FX_ONE`]; the representation of one half.
pub const FX_HALF: i64 = 32768;

/// Largest representable magnitude: every operation saturates into
/// `[-FX_MAX, FX_MAX]` (about two billion in real-number units).
pub const FX_MAX: i64 = 0x7fff_ffff_ffff;

/// Fixed-point pi (`3.14159... * 65536`, rounded to nearest).
pub const FX_PI: i64 = 205887;

/// Fixed-point pi/2.
pub const FX_HALF_PI: i64 = 102944;

/// Fixed-point 2*pi.
pub const FX_TAU: i64 = 411775;

/// Clips an unbounded model value into the representable range.
pub open spec fn fx_clip(v: int) -> int {
    if v > FX_MAX {
        FX_MAX as int
    } else if v < -(FX_MAX as int) {
        -(FX_MAX as int)
    } else {
        v
    }
}

/// Model absolute value.
pub open spec fn abs_i(v: int) -> int {
    if v >= 0 {
        v
    } else {
        -v
    }
}

/// Truncating (toward zero) division, the rounding used by every fixed-point
/// operation; `d` must not be zero for the result to be meaningful.
pub open spec fn tdiv(n: int, d: int) -> int {
    let q = abs_i(n) / abs_i(d);
    if (n < 0) != (d < 0) {
        -q
    } else {
        q
    }
}

/// Model of fixed-point addition.
pub open spec fn fx_add_spec(a: int, b: int) -> int {
    fx_clip(a + b)
}

/// Model of fixed-point subtraction.
pub open spec fn fx_sub_spec(a: int, b: int) -> int {
    fx_clip(a - b)
}

/// Model of fixed-point multiplication: the exact product rescaled by
/// truncating division, then clipped.
pub open spec fn fx_mul_spec(a: int, b: int) -> int {
    fx_clip(tdiv(a * b, FX_ONE as int))
}

/// Model of fixed-point division: saturates on a zero divisor.
pub open spec fn fx_div_spec(a: int, b: int) -> int {
    if b == 0 {
        if a > 0 {
            FX_MAX as int
        } else if a < 0 {
            -(FX_MAX as int)
        } else {
            0
        }
    } else {
        fx_clip(tdiv(a * (FX_ONE as int), b))
    }
}

/// Saturates a wide intermediate value into the `Fx` range.
fn clip_i128(v: i128) -> (r: i64)
    ensures
        r as int == fx_clip(v as int),
{
    if v > FX_MAX as i128 {
        FX_MAX
    } else if v < -(FX_MAX as i128) {
        -FX_MAX
    } else {
        v as i64
    }
}

/// Saturating fixed-point addition.
pub fn fx_add(a: Fx, b: Fx) -> (r: Fx)
    ensures
        r as int == fx_add_spec(a as int, b as int),
{
    clip_i128(a as i128 + b as i128)
}

/// Saturating fixed-point subtraction.
pub fn fx_sub(a: Fx, b: Fx) -> (r: Fx)
    ensures
        r as int == fx_sub_spec(a as int, b as int),
{
    clip_i128(a as i128 - b as i128)
}

/// Saturating fixed-point negation.
pub fn fx_neg(a: Fx) -> (r: Fx)
    ensures
        r as int == fx_clip(-(a as int)),
{
    clip_i128(-(a as i128))
}

/// Fixed-point absolute value (saturating at `FX_MAX`).
pub fn fx_abs(a: Fx) -> (r: Fx)
    ensures
        r as int == fx_clip(abs_i(a as int)),
{
    if a < 0 {
        clip_i128(-(a as i128))
    } else {
        clip_i128(a as i128)
    }
}

/// The smaller of two scalars.
pub fn fx_min(a: Fx, b: Fx) -> (r: Fx)
    ensures
        r as int == if (a as int) <= (b as int) {
            a as int
        } else {
            b as int
        },
{
    if a <= b {
        a
    } else {
        b
    }
}

/// The larger of two scalars.
pub fn fx_max(a: Fx, b: Fx) -> (r: Fx)
    ensures
        r as int == if (a as int) >= (b as int) {
            a as int
        } else {
            b as int
        },
{
    if a >= b {
        a
    } else {
        b
    }
}

/// Clamps `v` into `[lo, hi]` (with `lo <= hi`).
pub fn fx_clamp(v: Fx, lo: Fx, hi: Fx) -> (r: Fx)
    requires
        lo <= hi,
    ensures
        r as int == if (v as int) < (lo as int) {
            lo as int
        } else if (v as int) > (hi as int) {
            hi as int
        } else {
            v as int
        },
{
    if v < lo {
        lo
    } else if v > hi {
        hi
    } else {
        v
    }
}

/// Truncating division of wide nonnegative magnitudes, as a building block:
/// `n` and `d` are magnitudes, `neg` says whether the true quotient is
/// negative; the result is the signed, clipped quotient.
pub(crate) fn div_mag(n: u128, d: u128, neg: bool) -> (r: i64)
    requires
        d > 0,
    ensures
        r as int == fx_clip(if neg {
            -((n as int) / (d as int))
        } else {
            (n as int) / (d as int)
        }),
{
    let q: u128 = n / d;
    let lim: u128 = FX_MAX as u128;
    let qq: u128 = if q > lim {
        lim
    } else {
        q
    };
    if neg {
        -(qq as i64)
    } else {
        qq as i64
    }
}

/// The magnitude of an `i128`, as a `u128`.
pub(crate) fn mag_i128(v: i128) -> (r: u128)
    ensures
        r as int == abs_i(v as int),
{
    if v < 0 {
        if v == i128::MIN {
            // |i128::MIN| does not fit in i128 but fits in u128.
            0x8000_0000_0000_0000_0000_0000_0000_0000u128
        } else {
            (-v) as u128
        }
    } else {
        v as u128
    }
}

/// Saturating fixed-point multiplication.
pub fn fx_mul(a: Fx, b: Fx) -> (r: Fx)
    ensures
        r as int == fx_mul_spec(a as int, b as int),
{
    proof {
        assert((a as int) * (b as int) <= 0x8000_0000_0000_0000 * 0x8000_0000_0000_0000
            && (a as int) * (b as int) >= -(0x8000_0000_0000_0000 * 0x8000_0000_0000_0000))
            by (nonlinear_arith)
            requires
                -0x8000_0000_0000_0000 <= a as int && (a as int) < 0x8000_0000_0000_0000,
                -0x8000_0000_0000_0000 <= b as int && (b as int) < 0x8000_0000_0000_0000,
        ;
    }
    let p: i128 = (a as i128) * (b as i128);
    let neg: bool = p < 0;
    let mag: u128 = mag_i128(p);
    proof {
        lemma_tdiv_signs(p as int, FX_ONE as int);
    }
    div_mag(mag, FX_ONE as u128, neg)
}

/// Saturating fixed-point division; a zero divisor saturates by the sign of
/// the dividend.
pub fn fx_div(a: Fx, b: Fx) -> (r: Fx)
    ensures
        r as int == fx_div_spec(a as int, b as int),
{
    if b == 0 {
        if a > 0 {
            FX_MAX
        } else if a < 0 {
            -FX_MAX
        } else {
            0
        }
    } else {
        proof {
            assert((a as int) * (FX_ONE as int) <= 0x8000_0000_0000_0000 * 0x10000
                && (a as int) * (FX_ONE as int) >= -(0x8000_0000_0000_0000 * 0x10000))
                by (nonlinear_arith)
                requires
                    -0x8000_0000_0000_0000 <= a as int && (a as int) < 0x8000_0000_0000_0000,
            ;
        }
        let p: i128 = (a as i128) * (FX_ONE as i128);
        let neg: bool = (p < 0) != (b < 0);
        let magp: u128 = mag_i128(p);
        let magb: u128 = mag_i128(b as i128);
        proof {
            lemma_tdiv_signs(p as int, b as int);
        }
        div_mag(magp, magb, neg)
    }
}

/// Truncating division of a nonnegative scalar by a positive divisor.
fn udiv(a: i64, n: i64) -> (r: i64)
    requires
        a >= 0,
        n > 0,
    ensures
        r as int == tdiv(a as int, n as int),
{
    ((a as u64) / (n as u64)) as i64
}

/// Floor of the square root of a natural number, defined by counting up.
pub open spec fn sqrt_floor(n: nat) -> nat
    decreases n,
{
    if n == 0 {
        0
    } else {
        let s = sqrt_floor((n - 1) as nat);
        if (s + 1) * (s + 1) <= n {
            s + 1
        } else {
            s
        }
    }
}

/// `sqrt_floor(n)` really is the floor of the square root.
pub proof fn lemma_sqrt_floor(n: nat)
    ensures
        sqrt_floor(n) * sqrt_floor(n) <= n,
        n < (sqrt_floor(n) + 1) * (sqrt_floor(n) + 1),
    decreases n,
{
    if n > 0 {
        lemma_sqrt_floor((n - 1) as nat);
        let s = sqrt_floor((n - 1) as nat);
        assert(sqrt_floor(n) == if (s + 1) * (s + 1) <= n {
            s + 1
        } else {
            s
        });
        if (s + 1) * (s + 1) <= n {
            assert(n < ((s + 1) + 1) * ((s + 1) + 1)) by (nonlinear_arith)
                requires
                    (n - 1) < (s + 1) * (s + 1),
            ;
            assert(sqrt_floor(n) == s + 1);
            assert(n < (sqrt_floor(n) + 1) * (sqrt_floor(n) + 1));
        } else {
            assert(sqrt_floor(n) == s);
            assert(n < (sqrt_floor(n) + 1) * (sqrt_floor(n) + 1));
        }
    } else {
        assert(sqrt_floor(n) == 0);
        assert(n < (sqrt_floor(n) + 1) * (sqrt_floor(n) + 1)) by (nonlinear_arith)
            requires
                n == 0,
                sqrt_floor(n) == 0,
        ;
    }
}

/// Any `r` with `r^2 <= n < (r+1)^2` is `sqrt_floor(n)`.
pub proof fn lemma_sqrt_floor_unique(n: nat, r: nat)
    requires
        r * r <= n,
        n < (r + 1) * (r + 1),
    ensures
        r == sqrt_floor(n),
{
    lemma_sqrt_floor(n);
    let s = sqrt_floor(n);
    assert(r == s) by (nonlinear_arith)
        requires
            r * r <= n,
            n < (r + 1) * (r + 1),
            s * s <= n,
            n < (s + 1) * (s + 1),
    ;
}

/// Floor square root by bisection.
fn isqrt(n: u128) -> (r: u64)
    requires
        n < 0x1_0000_0000_0000_0000_0000_0000u128,
    ensures
        r as nat == sqrt_floor(n as nat),
{
    let mut lo: u128 = 0;
    let mut hi: u128 = 0x1_0000_0000_0000u128;
    proof {
        assert(hi * hi == 0x1_0000_0000_0000_0000_0000_0000u128) by (nonlinear_arith)
            requires
                hi == 0x1_0000_0000_0000u128,
        ;
    }
    while hi - lo > 1
        invariant
            lo < hi,
            hi <= 0x1_0000_0000_0000u128,
            lo * lo <= n as nat,
            (n as nat) < hi * hi,
        decreases hi - lo,
    {
        let mid: u128 = lo + (hi - lo) / 2;
        proof {
            assert(mid * mid < 0x1_0000_0000_0000_0000_0000_0000u128) by (nonlinear_arith)
                requires
                    mid < 0x1_0000_0000_0000u128,
            ;
        }
        if mid * mid <= n {
            lo = mid;
        } else {
            hi = mid;
        }
    }
    proof {
        lemma_sqrt_floor_unique(n as nat, lo as nat);
    }
    lo as u64
}

/// Model of the euclidean length of the fixed-point vector `(a, b)`.
pub open spec fn fx_len_spec(a: int, b: int) -> int {
    sqrt_floor((fx_clip(a) * fx_clip(a) + fx_clip(b) * fx_clip(b)) as nat) as int
}

/// Euclidean length of the vector `(a, b)`: since the squares are taken on
/// raw values and the square root halves the scale, the result is again a
/// fixed-point scalar.
pub fn fx_len(a: Fx, b: Fx) -> (r: Fx)
    ensures
        r as int == fx_len_spec(a as int, b as int),
{
    let ca: i64 = fx_clamp(a, -FX_MAX, FX_MAX);
    let cb: i64 = fx_clamp(b, -FX_MAX, FX_MAX);
    let ma: u128 = mag_i128(ca as i128);
    let mb: u128 = mag_i128(cb as i128);
    proof {
        assert(ma * ma <= 0x8000_0000_0000u128 * 0x8000_0000_0000u128
            && mb * mb <= 0x8000_0000_0000u128 * 0x8000_0000_0000u128
            && ma * ma == fx_clip(a as int) * fx_clip(a as int)
            && mb * mb == fx_clip(b as int) * fx_clip(b as int)) by (nonlinear_arith)
            requires
                ma as int == abs_i(fx_clip(a as int)),
                mb as int == abs_i(fx_clip(b as int)),
                ma <= 0x8000_0000_0000u128,
                mb <= 0x8000_0000_0000u128,
        ;
    }
    let sq: u128 = ma * ma + mb * mb;
    let r: u64 = isqrt(sq);
    proof {
        lemma_sqrt_floor(sq as nat);
        assert(sqrt_floor(sq as nat) * sqrt_floor(sq as nat) <= sq as nat);
        assert((r as nat) * (r as nat) <= sq ==> r < 0x1_0000_0000_0000u64) by (nonlinear_arith)
            requires
                sq < 0x1_0000_0000_0000_0000_0000_0000u128,
        ;
    }
    r as i64
}

/// Euclidean remainder: the result of `a % m` lies in `[0, m)` whatever the
/// sign of `a`.
pub fn emod(a: i64, m: i64) -> (r: i64)
    requires
        m > 0,
    ensures
        r as int == (a as int) % (m as int),
{
    if a >= 0 {
        ((a as u64) % (m as u64)) as i64
    } else {
        let mag: u64 = if a == i64::MIN {
            0x8000_0000_0000_0000u64
        } else {
            (-a) as u64
        };
        let rm: u64 = mag % (m as u64);
        proof {
            let ai = a as int;
            let mi = m as int;
            let g = mag as int;
            vstd::arithmetic::div_mod::lemma_fundamental_div_mod(g, mi);
            vstd::arithmetic::div_mod::lemma_mod_division_less_than_divisor(g, mi);
            let q = g / mi;
            assert((-q) * mi == -(mi * q) && (-q - 1) * mi == -(mi * q) - mi)
                by (nonlinear_arith);
            if rm == 0 {
                vstd::arithmetic::div_mod::lemma_fundamental_div_mod_converse(ai, mi, -q, 0);
            } else {
                vstd::arithmetic::div_mod::lemma_fundamental_div_mod_converse(
                    ai,
                    mi,
                    -q - 1,
                    mi - (g % mi),
                );
            }
        }
        if rm == 0 {
            0
        } else {
            (m as u64 - rm) as i64
        }
    }
}

/// The sine Taylor polynomial on the reduced range, evaluated in Horner
/// form with truncating steps and clamped into `[-1, 1]`.
pub open spec fn sin_poly(t: int) -> int {
    let x2 = fx_mul_spec(t, t);
    let c4 = FX_ONE - tdiv(x2, 72);
    let c3 = FX_ONE - tdiv(fx_mul_spec(x2, c4), 42);
    let c2 = FX_ONE - tdiv(fx_mul_spec(x2, c3), 20);
    let c1 = FX_ONE - tdiv(fx_mul_spec(x2, c2), 6);
    let r = fx_mul_spec(t, c1);
    if r > FX_ONE {
        FX_ONE as int
    } else if r < -(FX_ONE as int) {
        -(FX_ONE as int)
    } else {
        r
    }
}

/// Model of fixed-point sine: reduce the angle into `[-pi/2, pi/2]` by
/// periodicity and the reflection `sin(pi - x) == sin(x)`, then evaluate a
/// degree-9 Taylor polynomial in Horner form.
pub open spec fn fx_sin_spec(x: int) -> int {
    let t0 = x % (FX_TAU as int);
    let t1 = if t0 > FX_PI {
        t0 - FX_TAU
    } else {
        t0
    };
    let t2 = if t1 > FX_HALF_PI {
        FX_PI - t1
    } else if t1 < -(FX_HALF_PI as int) {
        -(FX_PI as int) - t1
    } else {
        t1
    };
    sin_poly(t2)
}

/// Model of fixed-point cosine, as sine shifted a quarter turn.
pub open spec fn fx_cos_spec(x: int) -> int {
    fx_sin_spec(x % (FX_TAU as int) + FX_HALF_PI)
}

/// Model of fixed-point tangent.
pub open spec fn fx_tan_spec(x: int) -> int {
    fx_div_spec(fx_sin_spec(x), fx_cos_spec(x))
}

/// The quotient of a bounded nonnegative value is bounded.
proof fn lemma_nonneg_div_le(a: int, n: int, abound: int)
    requires
        0 <= a <= abound,
        0 < n,
    ensures
        0 <= tdiv(a, n),
        tdiv(a, n) <= abound / n,
{
    vstd::arithmetic::div_mod::lemma_div_pos_is_pos(a, n);
    vstd::arithmetic::div_mod::lemma_div_is_ordered(a, abound, n);
}

/// A fixed-point product with a factor at most one does not grow.
proof fn lemma_mul_le_bound(a: int, c: int, abound: int)
    requires
        0 <= a <= abound,
        abound <= FX_MAX,
        0 <= c <= FX_ONE,
    ensures
        0 <= fx_mul_spec(a, c),
        fx_mul_spec(a, c) <= abound,
{
    assert(0 <= a * c && a * c <= abound * 65536) by (nonlinear_arith)
        requires
            0 <= a <= abound,
            0 <= c <= 65536,
    ;
    vstd::arithmetic::div_mod::lemma_div_pos_is_pos(a * c, 65536);
    vstd::arithmetic::div_mod::lemma_div_is_ordered(a * c, abound * 65536, 65536);
    vstd::arithmetic::div_mod::lemma_div_multiples_vanish(abound, 65536);
}

/// The reduced-range sine polynomial.
fn sin_reduced(t: i64) -> (r: i64)
    requires
        -102944 <= t && t <= 102944,
    ensures
        r as int == sin_poly(t as int),
        -FX_ONE <= r && r <= FX_ONE,
{
    let x2: i64 = fx_mul(t, t);
    proof {
        assert(0 <= (t as int) * (t as int)
            && (t as int) * (t as int) <= 102944 * 102944) by (nonlinear_arith)
            requires
                -102944 <= t as int && t as int <= 102944,
        ;
        lemma_nonneg_div_le((t as int) * (t as int), FX_ONE as int, (102944 * 102944) as int);
    }
    let d4: i64 = udiv(x2, 72);
    proof {
        lemma_nonneg_div_le(x2 as int, 72, 161705);
    }
    let c4: i64 = FX_ONE - d4;
    let p4: i64 = fx_mul(x2, c4);
    proof {
        lemma_mul_le_bound(x2 as int, c4 as int, 161705);
    }
    let d3: i64 = udiv(p4, 42);
    proof {
        lemma_nonneg_div_le(p4 as int, 42, 161705);
    }
    let c3: i64 = FX_ONE - d3;
    let p3: i64 = fx_mul(x2, c3);
    proof {
        lemma_mul_le_bound(x2 as int, c3 as int, 161705);
    }
    let d2: i64 = udiv(p3, 20);
    proof {
        lemma_nonneg_div_le(p3 as int, 20, 161705);
    }
    let c2: i64 = FX_ONE - d2;
    let p2: i64 = fx_mul(x2, c2);
    proof {
        lemma_mul_le_bound(x2 as int, c2 as int, 161705);
    }
    let d1: i64 = udiv(p2, 6);
    proof {
        lemma_nonneg_div_le(p2 as int, 6, 161705);
    }
    let c1: i64 = FX_ONE - d1;
    let r: i64 = fx_mul(t, c1);
    fx_clamp(r, -FX_ONE, FX_ONE)
}

/// Model of halving (truncating toward zero).
pub open spec fn fx_half_spec(a: int) -> int {
    tdiv(a, 2)
}

/// Halves a scalar, rounding toward zero.
pub fn fx_half(a: Fx) -> (r: Fx)
    ensures
        r as int == fx_half_spec(a as int),
{
    if a >= 0 {
        ((a as u64) / 2) as i64
    } else {
        let mag: u64 = if a == i64::MIN {
            0x8000_0000_0000_0000u64
        } else {
            (-a) as u64
        };
        -((mag / 2) as i64)
    }
}

/// Fixed-point sine of an angle in radians.
pub fn fx_sin(x: Fx) -> (r: Fx)
    ensures
        r as int == fx_sin_spec(x as int),
        -FX_ONE <= r && r <= FX_ONE,
{
    let t0: i64 = emod(x, FX_TAU);
    proof {
        vstd::arithmetic::div_mod::lemma_mod_division_less_than_divisor(x as int, FX_TAU as int);
    }
    let t1: i64 = if t0 > FX_PI {
        t0 - FX_TAU
    } else {
        t0
    };
    let t2: i64 = if t1 > FX_HALF_PI {
        FX_PI - t1
    } else if t1 < -FX_HALF_PI {
        -FX_PI - t1
    } else {
        t1
    };
    sin_reduced(t2)
}

/// Fixed-point cosine of an angle in radians.
pub fn fx_cos(x: Fx) -> (r: Fx)
    ensures
        r as int == fx_cos_spec(x as int),
        -FX_ONE <= r && r <= FX_ONE,
{
    let t0: i64 = emod(x, FX_TAU);
    proof {
        vstd::arithmetic::div_mod::lemma_mod_division_less_than_divisor(x as int, FX_TAU as int);
    }
    fx_sin(t0 + FX_HALF_PI)
}

/// Fixed-point tangent of an angle in radians (saturates near the poles).
pub fn fx_tan(x: Fx) -> (r: Fx)
    ensures
        r as int == fx_tan_spec(x as int),
{
    let s: i64 = fx_sin(x);
    let c: i64 = fx_cos(x);
    fx_div(s, c)
}

/// Model of the fixed-point square root (zero for non-positive input).
pub open spec fn fx_sqrt_spec(v: int) -> int {
    if v <= 0 {
        0
    } else {
        sqrt_floor((fx_clip(v) * (FX_ONE as int)) as nat) as int
    }
}

/// Fixed-point square root: scaling the radicand by one keeps the result
/// at fixed-point scale.
pub fn fx_sqrt(v: Fx) -> (r: Fx)
    ensures
        r as int == fx_sqrt_spec(v as int),
{
    if v <= 0 {
        0
    } else {
        let c: i64 = fx_clamp(v, 0, FX_MAX);
        let n: u128 = (c as u128) * 65536;
        let r: u64 = isqrt(n);
        proof {
            lemma_sqrt_floor(n as nat);
            assert((r as nat) * (r as nat) <= n as nat ==> r < 0x1_0000_0000u64)
                by (nonlinear_arith)
                requires
                    n < 0x1_0000_0000_0000_0000u128,
            ;
        }
        r as i64
    }
}

/// The truncated arctangent polynomial on `[0, 1]`, at fixed-point scale.
pub open spec fn atan_poly(z: int) -> int {
    fx_mul_spec(z, fx_add_spec(51472, fx_mul_spec(17892, fx_sub_spec(FX_ONE as int, z))))
}

/// Evaluates the arctangent polynomial.
fn atan_poly_x(z: i64) -> (r: i64)
    ensures
        r as int == atan_poly(z as int),
{
    fx_mul(z, fx_add(51472, fx_mul(17892, fx_sub(FX_ONE, z))))
}

/// Model of the fixed-point two-argument arctangent: octant reduction over
/// the ratio of magnitudes, then the polynomial.
pub open spec fn fx_atan2_spec(y: int, x: int) -> int {
    let ax = fx_clip(abs_i(x));
    let ay = fx_clip(abs_i(y));
    if ax == 0 && ay == 0 {
        0
    } else {
        let base = if ay <= ax {
            atan_poly(fx_div_spec(ay, ax))
        } else {
            fx_sub_spec(FX_HALF_PI as int, atan_poly(fx_div_spec(ax, ay)))
        };
        let q = if x >= 0 {
            base
        } else {
            fx_sub_spec(FX_PI as int, base)
        };
        if y >= 0 {
            q
        } else {
            fx_clip(-q)
        }
    }
}

/// The angle of the vector `(x, y)`, in radians in `(-pi, pi]`, by an
/// arctangent approximation.
pub fn fx_atan2(y: Fx, x: Fx) -> (r: Fx)
    ensures
        r as int == fx_atan2_spec(y as int, x as int),
{
    let ax: Fx = fx_abs(x);
    let ay: Fx = fx_abs(y);
    if ax == 0 && ay == 0 {
        0
    } else {
        let base: Fx = if ay <= ax {
            atan_poly_x(fx_div(ay, ax))
        } else {
            fx_sub(FX_HALF_PI, atan_poly_x(fx_div(ax, ay)))
        };
        let q: Fx = if x >= 0 {
            base
        } else {
            fx_sub(FX_PI, base)
        };
        if y >= 0 {
            q
        } else {
            fx_neg(q)
        }
    }
}

/// Model of the degree-to-radian conversion.
pub open spec fn deg_to_rad_spec(deg: int) -> int {
    fx_clip(tdiv(deg * (FX_TAU as int), 360 * (FX_ONE as int)))
}

/// Model of the radian-to-degree conversion.
pub open spec fn rad_to_deg_spec(rad: int) -> int {
    fx_clip(tdiv(rad * 360 * (FX_ONE as int), FX_TAU as int))
}

/// Converts degrees to radians.
pub fn deg_to_rad(deg: Fx) -> (r: Fx)
    ensures
        r as int == deg_to_rad_spec(deg as int),
{
    proof {
        assert(abs_i((deg as int) * (FX_TAU as int)) <= 0x8000_0000_0000_0000 * 0x10_0000)
            by (nonlinear_arith)
            requires
                abs_i(deg as int) <= 0x8000_0000_0000_0000,
                0 <= FX_TAU as int <= 0x10_0000,
        ;
    }
    let p: i128 = (deg as i128) * (FX_TAU as i128);
    let neg: bool = p < 0;
    let mag: u128 = mag_i128(p);
    proof {
        lemma_tdiv_signs(p as int, 360 * (FX_ONE as int));
    }
    div_mag(mag, 23592960u128, neg)
}

/// Converts radians to degrees.
pub fn rad_to_deg(rad: Fx) -> (r: Fx)
    ensures
        r as int == rad_to_deg_spec(rad as int),
{
    proof {
        assert((rad as int) * 360 * (FX_ONE as int) == (rad as int) * 23592960
            && abs_i((rad as int) * 23592960) <= 0x8000_0000_0000_0000 * 0x2000_0000)
            by (nonlinear_arith)
            requires
                abs_i(rad as int) <= 0x8000_0000_0000_0000,
        ;
    }
    let p: i128 = (rad as i128) * 23592960i128;
    let neg: bool = p < 0;
    let mag: u128 = mag_i128(p);
    proof {
        lemma_tdiv_signs(p as int, FX_TAU as int);
    }
    div_mag(mag, FX_TAU as u128, neg)
}

/// Truncating division by sign cases: `tdiv(n, d)` equals the signed quotient
/// of the magnitudes.
pub(crate) proof fn lemma_tdiv_signs(n: int, d: int)
    requires
        d != 0,
    ensures
        tdiv(n, d) == if (n < 0) != (d < 0) {
            -(abs_i(n) / abs_i(d))
        } else {
            abs_i(n) / abs_i(d)
        },
{
}

} // verus!
