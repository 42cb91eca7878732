use vgcore::Transform;
use vgcore::fixed::FX_HALF_PI;
use vgcore::fixed::FX_MAX;
use vgcore::fixed::FX_ONE;
use vgcore::fixed::FX_PI;
use vgcore::fixed::FX_TAU;
use vgcore::fixed::emod;
use vgcore::fixed::fx_abs;
use vgcore::fixed::fx_add;
use vgcore::fixed::fx_atan2;
use vgcore::fixed::fx_clamp;
use vgcore::fixed::fx_cos;
use vgcore::fixed::fx_div;
use vgcore::fixed::fx_half;
use vgcore::fixed::fx_len;
use vgcore::fixed::fx_mul;
use vgcore::fixed::fx_sin;
use vgcore::fixed::fx_sqrt;
use vgcore::fixed::fx_sub;
use vgcore::fixed::fx_tan;
use vgcore::deg_to_rad;
use vgcore::rad_to_deg;

fn near(a: i64, b: i64, tol: i64) -> bool {
    (a - b).abs() <= tol
}

#[test]
fn fixed_mul_and_div_are_exact_on_whole_numbers() {
    assert_eq!(fx_mul(3 * FX_ONE, 2 * FX_ONE), 6 * FX_ONE);
    assert_eq!(fx_mul(-3 * FX_ONE, 2 * FX_ONE), -6 * FX_ONE);
    assert_eq!(fx_div(10 * FX_ONE, 4 * FX_ONE), 163840); // 2.5
    assert_eq!(fx_div(-10 * FX_ONE, 4 * FX_ONE), -163840);
}

#[test]
fn fixed_saturates_instead_of_overflowing() {
    assert_eq!(fx_add(FX_MAX, FX_MAX), FX_MAX);
    assert_eq!(fx_sub(-FX_MAX, FX_MAX), -FX_MAX);
    assert_eq!(fx_mul(FX_MAX, FX_MAX), FX_MAX);
    assert_eq!(fx_div(FX_ONE, 0), FX_MAX);
    assert_eq!(fx_div(-FX_ONE, 0), -FX_MAX);
    assert_eq!(fx_div(0, 0), 0);
}

#[test]
fn fixed_misc_helpers() {
    assert_eq!(fx_abs(-5 * FX_ONE), 5 * FX_ONE);
    assert_eq!(fx_half(-5), -2); // rounds toward zero
    assert_eq!(fx_clamp(3 * FX_ONE, 0, FX_ONE), FX_ONE);
    assert_eq!(emod(-1, FX_TAU), FX_TAU - 1);
    assert_eq!(emod(FX_TAU + 7, FX_TAU), 7);
}

#[test]
fn fixed_sqrt_and_length() {
    assert_eq!(fx_sqrt(4 * FX_ONE), 2 * FX_ONE);
    assert_eq!(fx_sqrt(2 * FX_ONE), 92681); // floor(sqrt(2) * 65536)
    assert_eq!(fx_sqrt(-FX_ONE), 0);
    assert_eq!(fx_len(3 * FX_ONE, 4 * FX_ONE), 5 * FX_ONE);
    assert_eq!(fx_len(0, 0), 0);
}

#[test]
fn trig_hits_the_axis_values() {
    assert_eq!(fx_sin(0), 0);
    assert!(near(fx_sin(FX_HALF_PI), FX_ONE, 40));
    assert!(near(fx_sin(FX_PI), 0, 40));
    assert!(near(fx_sin(-FX_HALF_PI), -FX_ONE, 40));
    assert!(near(fx_cos(0), FX_ONE, 40));
    assert!(near(fx_cos(FX_PI), -FX_ONE, 40));
    assert_eq!(fx_tan(0), 0);
    assert!(near(fx_tan(51472), FX_ONE, 700)); // tan(pi/4) == 1
}

#[test]
fn trig_is_periodic() {
    let a = 30000;
    assert!(near(fx_sin(a), fx_sin(a + FX_TAU), 4));
    assert!(near(fx_cos(a), fx_cos(a - FX_TAU), 4));
}

#[test]
fn atan2_quadrants() {
    assert_eq!(fx_atan2(0, FX_ONE), 0);
    assert_eq!(fx_atan2(FX_ONE, 0), FX_HALF_PI);
    assert_eq!(fx_atan2(0, -FX_ONE), FX_PI);
    assert_eq!(fx_atan2(-FX_ONE, 0), -FX_HALF_PI);
    assert!(near(fx_atan2(FX_ONE, FX_ONE), 51472, 400)); // pi/4
    assert_eq!(fx_atan2(0, 0), 0);
}

#[test]
fn degree_radian_round_trip() {
    assert!(near(deg_to_rad(90 * FX_ONE), FX_HALF_PI, 4));
    assert!(near(deg_to_rad(360 * FX_ONE), FX_TAU, 4));
    assert!(near(rad_to_deg(FX_PI), 180 * FX_ONE, 100));
    assert!(near(rad_to_deg(deg_to_rad(45 * FX_ONE)), 45 * FX_ONE, 100));
}

#[test]
fn identity_maps_points_unchanged() {
    let t = Transform::identity();
    assert_eq!(t.point(2 * FX_ONE, 3 * FX_ONE), (2 * FX_ONE, 3 * FX_ONE));
    assert_eq!(t.point(-7 * FX_ONE, 0), (-7 * FX_ONE, 0));
    assert_eq!(t.point(12345, -6789), (12345, -6789));
}

#[test]
fn constructors_have_the_standard_forms() {
    let mut t = Transform::identity();
    t.set_translate(10 * FX_ONE, -4 * FX_ONE);
    assert_eq!(t.m, [FX_ONE, 0, 0, FX_ONE, 10 * FX_ONE, -4 * FX_ONE]);
    t.set_scale(2 * FX_ONE, 3 * FX_ONE);
    assert_eq!(t.m, [2 * FX_ONE, 0, 0, 3 * FX_ONE, 0, 0]);
    t.set_skew_x(51472); // tan goes in the c slot: x' = x + tan * y
    assert_eq!(t.m[0], FX_ONE);
    assert_eq!(t.m[1], 0);
    assert!(near(t.m[2], FX_ONE, 700));
    assert_eq!(t.m[3], FX_ONE);
    t.set_skew_y(51472); // tan goes in the b slot: y' = y + tan * x
    assert_eq!(t.m[0], FX_ONE);
    assert!(near(t.m[1], FX_ONE, 700));
    assert_eq!(t.m[2], 0);
    assert_eq!(t.m[3], FX_ONE);
    t.set_rotate(FX_HALF_PI);
    assert!(near(t.m[0], 0, 40));
    assert!(near(t.m[1], FX_ONE, 40));
    assert!(near(t.m[2], -FX_ONE, 40));
    assert!(near(t.m[3], 0, 40));
}

#[test]
fn composition_applies_the_second_operand_first() {
    // compose(A, B): B maps the point first, A after
    let mut a = Transform::identity();
    a.set_scale(2 * FX_ONE, FX_ONE);
    let mut b = Transform::identity();
    b.set_translate(10 * FX_ONE, 0);
    let mut ab = b;
    ab.set_multiply(&a); // ab == A * B
    let p = ab.point(3 * FX_ONE, 4 * FX_ONE);
    let q = b.point(3 * FX_ONE, 4 * FX_ONE);
    let q = a.point(q.0, q.1);
    assert_eq!(p, q);
    assert_eq!(p, (26 * FX_ONE, 4 * FX_ONE));
}

#[test]
fn premultiply_swaps_the_operands_of_multiply() {
    let mut a = Transform::identity();
    a.set_scale(2 * FX_ONE, 3 * FX_ONE);
    let mut b = Transform::identity();
    b.set_translate(5 * FX_ONE, 7 * FX_ONE);
    let mut lhs = a;
    lhs.set_premultiply(&b); // A * B
    let mut rhs = b;
    rhs.set_multiply(&a); // A * B by the swapped operation
    assert_eq!(lhs.m, rhs.m);
}

#[test]
fn translation_inverts_exactly() {
    let mut t = Transform::identity();
    t.set_translate(10 * FX_ONE, 20 * FX_ONE);
    let inv = t.invert().expect("translation is invertible");
    let p = t.point(7 * FX_ONE, -3 * FX_ONE);
    assert_eq!(inv.point(p.0, p.1), (7 * FX_ONE, -3 * FX_ONE));
}

#[test]
fn scale_inverts_within_tolerance() {
    let mut t = Transform::identity();
    t.set_scale(2 * FX_ONE, 4 * FX_ONE);
    let inv = t.invert().expect("scale is invertible");
    let p = t.point(3 * FX_ONE, 5 * FX_ONE);
    let q = inv.point(p.0, p.1);
    assert!(near(q.0, 3 * FX_ONE, 7)); // within 1e-4
    assert!(near(q.1, 5 * FX_ONE, 7));
}

#[test]
fn degenerate_transforms_do_not_invert() {
    let mut t = Transform::identity();
    t.set_scale(0, 0);
    assert!(t.invert().is_none());
    let tiny = Transform { m: [1, 0, 0, 1, 0, 0] }; // det well below the threshold
    assert!(tiny.invert().is_none());
}

#[test]
fn power_of_two_scale_inverts_exactly() {
    let mut t = Transform::identity();
    t.set_scale(4 * FX_ONE, 4 * FX_ONE);
    let inv = t.invert().expect("scale is invertible");
    assert_eq!(inv.m[0], FX_ONE / 4);
    assert_eq!(inv.m[3], FX_ONE / 4);
    let p = t.point(12345, -67891);
    assert_eq!(inv.point(p.0, p.1), (12345, -67891));
}

#[test]
fn composition_with_fractional_entries_agrees_within_tolerance() {
    // fractional entries round, so the two sides agree only approximately
    let a = Transform { m: [98304, 16384, -16384, 98304, 242483, -131072] };
    let b = Transform { m: [45875, -9830, 9830, 45875, 65536, 424673] };
    let mut ab = b;
    ab.set_multiply(&a);
    let p = ab.point(3 * FX_ONE, -2 * FX_ONE);
    let q = b.point(3 * FX_ONE, -2 * FX_ONE);
    let q = a.point(q.0, q.1);
    assert!(near(p.0, q.0, 4102));
    assert!(near(p.1, q.1, 4102));
}

#[test]
fn opposite_rotations_cancel() {
    let mut r1 = Transform::identity();
    r1.set_rotate(40000); // about 0.61 radians
    let mut r2 = Transform::identity();
    r2.set_rotate(-40000);
    let mut both = r2;
    both.set_multiply(&r1);
    let p = both.point(5 * FX_ONE, 3 * FX_ONE);
    assert!(near(p.0, 5 * FX_ONE, 200));
    assert!(near(p.1, 3 * FX_ONE, 200));
}

#[test]
fn rotation_inverts_within_tolerance() {
    let mut t = Transform::identity();
    t.set_rotate(30000);
    let inv = t.invert().expect("rotation is invertible");
    let p = t.point(2 * FX_ONE, -FX_ONE);
    let q = inv.point(p.0, p.1);
    assert!(near(q.0, 2 * FX_ONE, 40));
    assert!(near(q.1, -FX_ONE, 40));
}

#[test]
fn atan2_lower_left_quadrant() {
    // angle of (-1, -1) is -3*pi/4
    let a = fx_atan2(-FX_ONE, -FX_ONE);
    assert!(near(a, -154415, 500));
}
