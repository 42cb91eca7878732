use vgcore::Color;
use vgcore::Paint;
use vgcore::PaintKind;
use vgcore::fixed::FX_HALF;
use vgcore::fixed::FX_ONE;
use vgcore::fixed::fx_div;
use vgcore::paint::GRADIENT_LARGE;

fn near(a: i64, b: i64, tol: i64) -> bool {
    (a - b).abs() <= tol
}

#[test]
fn rgb_scales_eight_bit_channels() {
    let c = Color::rgb(255, 0, 128);
    assert_eq!(c.r, FX_ONE);
    assert_eq!(c.g, 0);
    assert_eq!(c.b, 128 * FX_ONE / 255);
    assert_eq!(c.a, FX_ONE);
}

#[test]
fn rgb_matches_rgbf_on_divided_channels() {
    // the round-trip law: rgb(r, g, b) == rgbf(r/255, g/255, b/255)
    let c8 = Color::rgba(37, 128, 255, 204);
    let cf = Color::rgbaf(
        fx_div(37 * FX_ONE, 255 * FX_ONE),
        fx_div(128 * FX_ONE, 255 * FX_ONE),
        fx_div(255 * FX_ONE, 255 * FX_ONE),
        fx_div(204 * FX_ONE, 255 * FX_ONE),
    );
    assert_eq!(c8, cf);
}

#[test]
fn hsl_red_is_exact() {
    let c = Color::hsl(0, FX_ONE, FX_HALF);
    assert_eq!(c, Color { r: FX_ONE, g: 0, b: 0, a: FX_ONE });
}

#[test]
fn hsl_green_sector() {
    let c = Color::hsl(21845, FX_ONE, FX_HALF); // h == 1/3
    assert!(c.r <= 8);
    assert_eq!(c.g, FX_ONE);
    assert_eq!(c.b, 0);
}

#[test]
fn hsla_carries_eight_bit_alpha() {
    let c = Color::hsla(0, FX_ONE, FX_HALF, 128);
    assert_eq!(c.a, 128 * FX_ONE / 255);
    assert_eq!(c.r, FX_ONE);
}

#[test]
fn hsl_clamps_saturation_and_lightness() {
    let grey = Color::hsl(0, -FX_ONE, FX_HALF); // saturation clamped to 0
    assert_eq!(grey.r, grey.g);
    assert_eq!(grey.g, grey.b);
    let white = Color::hsl(0, FX_ONE, 2 * FX_ONE); // lightness clamped to 1
    assert_eq!(white, Color { r: FX_ONE, g: FX_ONE, b: FX_ONE, a: FX_ONE });
}

#[test]
fn lerp_interpolates_each_channel() {
    let c0 = Color::rgbaf(0, 0, FX_ONE, FX_ONE);
    let c1 = Color::rgbaf(FX_ONE, 0, FX_ONE, 0);
    let mid = Color::lerp_rgba(c0, c1, FX_HALF);
    assert_eq!(mid.r, FX_HALF);
    assert_eq!(mid.g, 0);
    assert_eq!(mid.b, FX_ONE);
    assert_eq!(mid.a, FX_HALF);
    // the parameter is clamped into [0, 1]
    assert_eq!(Color::lerp_rgba(c0, c1, 3 * FX_ONE), Color::lerp_rgba(c0, c1, FX_ONE));
}

#[test]
fn transparency_setters() {
    let c = Color::rgbf(FX_ONE, 0, 0);
    let t8 = c.with_transparency(128);
    assert_eq!(t8.r, FX_ONE);
    assert_eq!(t8.a, 128 * FX_ONE / 255);
    let tf = c.with_transparencyf(1234);
    assert_eq!(tf.a, 1234);
    assert_eq!(tf.g, 0);
}

#[test]
fn solid_paint_from_color() {
    let c = Color::rgb(10, 20, 30);
    let p = Paint::from_color(c);
    assert_eq!(p.kind, PaintKind::Solid);
    assert_eq!(p.inner_color, c);
    assert_eq!(p.outer_color, c);
    assert_eq!(p.xform.m, [FX_ONE, 0, 0, FX_ONE, 0, 0]);
    assert_eq!(p.radius, 0);
    assert_eq!(p.feather, FX_ONE);
    assert_eq!(p.image, 0);
}

#[test]
fn linear_gradient_aligns_with_the_segment() {
    let icol = Color::rgb(255, 0, 0);
    let ocol = Color::rgb(0, 0, 255);
    // vertical segment from (0, 0) to (0, 100)
    let p = Paint::linear_gradient(0, 0, 0, 100 * FX_ONE, icol, ocol);
    assert_eq!(p.kind, PaintKind::LinearGradient);
    assert_eq!(p.xform.m[0], FX_ONE); // direction (0, 1)
    assert_eq!(p.xform.m[1], 0);
    assert_eq!(p.xform.m[2], 0);
    assert_eq!(p.xform.m[3], FX_ONE);
    assert_eq!(p.xform.m[4], 0);
    assert_eq!(p.xform.m[5], -GRADIENT_LARGE);
    assert_eq!(p.extent[0], GRADIENT_LARGE);
    assert_eq!(p.extent[1], GRADIENT_LARGE + 50 * FX_ONE);
    assert_eq!(p.feather, 100 * FX_ONE);
    assert_eq!(p.inner_color, icol);
    assert_eq!(p.outer_color, ocol);
}

#[test]
fn linear_gradient_degenerate_segment_points_down() {
    let c = Color::rgb(0, 0, 0);
    let p = Paint::linear_gradient(FX_ONE, FX_ONE, FX_ONE, FX_ONE, c, c);
    // coincident endpoints: the direction falls back to (0, 1)
    assert_eq!(p.xform.m[0], FX_ONE);
    assert_eq!(p.xform.m[2], 0);
    assert_eq!(p.feather, FX_ONE);
}

#[test]
fn box_gradient_centers_the_box() {
    let c = Color::rgb(1, 2, 3);
    let p = Paint::box_gradient(10 * FX_ONE, 20 * FX_ONE, 4 * FX_ONE, 6 * FX_ONE, 12345, 99999, c, c);
    assert_eq!(p.kind, PaintKind::BoxGradient);
    assert_eq!(p.xform.m[4], 12 * FX_ONE);
    assert_eq!(p.xform.m[5], 23 * FX_ONE);
    assert_eq!(p.extent, [2 * FX_ONE, 3 * FX_ONE]);
    assert_eq!(p.radius, 12345);
    assert_eq!(p.feather, 99999);
}

#[test]
fn box_gradient_feather_has_a_floor_of_one() {
    let c = Color::rgb(0, 0, 0);
    let p = Paint::box_gradient(0, 0, FX_ONE, FX_ONE, 0, 5, c, c);
    assert_eq!(p.feather, FX_ONE);
}

#[test]
fn radial_gradient_averages_the_radii() {
    let icol = Color::rgb(9, 9, 9);
    let ocol = Color::rgb(1, 1, 1);
    let p = Paint::radial_gradient(7 * FX_ONE, -2 * FX_ONE, 2 * FX_ONE, 4 * FX_ONE, icol, ocol);
    assert_eq!(p.kind, PaintKind::RadialGradient);
    assert_eq!(p.radius, 3 * FX_ONE);
    assert_eq!(p.feather, 2 * FX_ONE);
    assert_eq!(p.extent, [3 * FX_ONE, 3 * FX_ONE]);
    assert_eq!(p.xform.m[4], 7 * FX_ONE);
    assert_eq!(p.xform.m[5], -2 * FX_ONE);
}

#[test]
fn image_pattern_carries_the_handle_and_alpha() {
    let p = Paint::image_pattern(FX_ONE, 2 * FX_ONE, 3 * FX_ONE, 4 * FX_ONE, 0, 7, FX_HALF);
    assert_eq!(p.kind, PaintKind::ImagePattern);
    assert_eq!(p.image, 7);
    assert_eq!(p.extent, [3 * FX_ONE, 4 * FX_ONE]);
    assert!(near(p.xform.m[0], FX_ONE, 4)); // angle 0: no rotation
    assert!(near(p.xform.m[1], 0, 4));
    assert_eq!(p.xform.m[4], FX_ONE);
    assert_eq!(p.xform.m[5], 2 * FX_ONE);
    assert_eq!(p.inner_color.a, FX_HALF);
    assert_eq!(p.inner_color.r, FX_ONE);
}

#[test]
fn hsl_blue_sector() {
    let c = Color::hsl(43690, FX_ONE, FX_HALF); // h == 2/3
    assert!(c.r <= 8);
    assert!(c.g <= 8);
    assert_eq!(c.b, FX_ONE);
}

#[test]
fn hsl_cyan_is_exact() {
    let c = Color::hsl(FX_HALF, FX_ONE, FX_HALF);
    assert_eq!(c, Color { r: 0, g: FX_ONE, b: FX_ONE, a: FX_ONE });
}
