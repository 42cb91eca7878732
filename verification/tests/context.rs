use vgcore::Align;
use vgcore::BlendFactor;
use vgcore::Color;
use vgcore::CompositeOperation;
use vgcore::Context;
use vgcore::DrawKind;
use vgcore::ImageFlags;
use vgcore::LineCap;
use vgcore::Paint;
use vgcore::Winding;
use vgcore::fixed::FX_HALF_PI;
use vgcore::fixed::FX_ONE;
use vgcore::fixed::FX_PI;

fn near(a: i64, b: i64, tol: i64) -> bool {
    (a - b).abs() <= tol
}

#[test]
fn save_restore_is_identity_on_the_state() {
    let mut vg = Context::new();
    vg.begin_frame(800 * FX_ONE, 600 * FX_ONE, FX_ONE);
    vg.stroke_width(3 * FX_ONE);
    vg.global_alpha(FX_ONE / 2);
    vg.line_cap(LineCap::Round);
    vg.fill_color(Color::rgb(10, 20, 30));
    vg.translate(5 * FX_ONE, 6 * FX_ONE);
    vg.scissor(0, 0, 50 * FX_ONE, 50 * FX_ONE);
    let before = vg.state;
    vg.save();
    vg.stroke_width(9 * FX_ONE);
    vg.global_alpha(FX_ONE);
    vg.line_cap(LineCap::Square);
    vg.fill_color(Color::rgb(1, 1, 1));
    vg.rotate(FX_HALF_PI);
    vg.reset_scissor();
    vg.global_composite_operation(CompositeOperation::Xor);
    vg.restore();
    assert_eq!(vg.state, before);
}

#[test]
fn restore_on_an_empty_stack_is_a_no_op() {
    let mut vg = Context::new();
    vg.begin_frame(100 * FX_ONE, 100 * FX_ONE, FX_ONE);
    vg.stroke_width(7 * FX_ONE);
    let before = vg.state;
    vg.restore();
    assert_eq!(vg.state, before);
}

#[test]
fn reset_restores_defaults_but_keeps_the_stack() {
    let mut vg = Context::new();
    vg.begin_frame(100 * FX_ONE, 100 * FX_ONE, FX_ONE);
    vg.save();
    vg.stroke_width(9 * FX_ONE);
    vg.reset();
    assert_eq!(vg.state.stroke_width, FX_ONE);
    assert_eq!(vg.state.miter_limit, 10 * FX_ONE);
    vg.restore(); // the saved snapshot is still there
    assert_eq!(vg.state.stroke_width, FX_ONE);
}

#[test]
fn empty_path_fill_emits_no_request() {
    let mut vg = Context::new();
    vg.begin_frame(100 * FX_ONE, 100 * FX_ONE, FX_ONE);
    vg.begin_path();
    vg.fill();
    let reqs = vg.end_frame();
    assert_eq!(reqs.len(), 0);
}

#[test]
fn line_without_a_subpath_is_ignored() {
    let mut vg = Context::new();
    vg.begin_frame(100 * FX_ONE, 100 * FX_ONE, FX_ONE);
    vg.begin_path();
    vg.line_to(10 * FX_ONE, 10 * FX_ONE);
    vg.bezier_to(0, 0, FX_ONE, FX_ONE, 2 * FX_ONE, 0);
    vg.fill();
    let reqs = vg.end_frame();
    assert_eq!(reqs.len(), 0);
}

#[test]
fn rect_fill_emits_one_closed_four_point_polyline() {
    let mut vg = Context::new();
    vg.begin_frame(100 * FX_ONE, 100 * FX_ONE, FX_ONE);
    vg.begin_path();
    vg.rect(0, 0, 10 * FX_ONE, 10 * FX_ONE);
    vg.fill();
    let reqs = vg.end_frame();
    assert_eq!(reqs.len(), 1);
    assert_eq!(reqs[0].kind, DrawKind::Fill);
    assert_eq!(reqs[0].geometry.len(), 1);
    let sub = &reqs[0].geometry[0];
    assert!(sub.closed);
    assert_eq!(sub.pts.len(), 4);
    assert_eq!(sub.pts[0], (0, 0));
    assert_eq!(sub.pts[1], (0, 10 * FX_ONE));
    assert_eq!(sub.pts[2], (10 * FX_ONE, 10 * FX_ONE));
    assert_eq!(sub.pts[3], (10 * FX_ONE, 0));
    assert!(matches!(sub.winding, Winding::CCW));
}

#[test]
fn translate_then_rotate_maps_the_unit_point() {
    // starting from identity: translate(10, 0), rotate(pi/2), then the
    // point (1, 0) lands near (10, 1)
    let mut vg = Context::new();
    vg.begin_frame(100 * FX_ONE, 100 * FX_ONE, FX_ONE);
    vg.translate(10 * FX_ONE, 0);
    vg.rotate(FX_HALF_PI);
    let t = vg.current_transform();
    let p = t.point(FX_ONE, 0);
    assert!(near(p.0, 10 * FX_ONE, 100));
    assert!(near(p.1, FX_ONE, 100));
}

#[test]
fn gradient_transform_resolves_at_fill_time() {
    // build the gradient first, translate afterwards: the emitted paint
    // must include the translation
    let mut vg = Context::new();
    vg.begin_frame(200 * FX_ONE, 200 * FX_ONE, FX_ONE);
    let paint = Paint::linear_gradient(
        0,
        0,
        0,
        100 * FX_ONE,
        Color::rgb(255, 0, 0),
        Color::rgb(0, 0, 255),
    );
    vg.save();
    vg.translate(100 * FX_ONE, 0);
    vg.fill_paint(paint);
    vg.begin_path();
    vg.rect(0, 0, 10 * FX_ONE, 10 * FX_ONE);
    vg.fill();
    vg.restore();
    let reqs = vg.end_frame();
    assert_eq!(reqs.len(), 1);
    let resolved = &reqs[0].paint;
    assert_eq!(resolved.xform.m[4], 100 * FX_ONE); // the translation is in
    assert_eq!(resolved.xform.m[5], -vgcore::paint::GRADIENT_LARGE);
    // the stored paint itself is untouched
    assert_eq!(paint.xform.m[4], 0);
}

#[test]
fn path_points_are_transformed_as_they_enter() {
    let mut vg = Context::new();
    vg.begin_frame(100 * FX_ONE, 100 * FX_ONE, FX_ONE);
    vg.translate(5 * FX_ONE, 7 * FX_ONE);
    vg.begin_path();
    vg.move_to(FX_ONE, 0);
    vg.line_to(2 * FX_ONE, 0);
    vg.close_path();
    vg.fill();
    let reqs = vg.end_frame();
    let sub = &reqs[0].geometry[0];
    assert!(sub.closed);
    assert_eq!(sub.pts[0], (6 * FX_ONE, 7 * FX_ONE));
    assert_eq!(sub.pts[1], (7 * FX_ONE, 7 * FX_ONE));
}

#[test]
fn bezier_ends_exactly_at_its_endpoint() {
    let mut vg = Context::new();
    vg.begin_frame(100 * FX_ONE, 100 * FX_ONE, FX_ONE);
    vg.begin_path();
    vg.move_to(0, 0);
    vg.bezier_to(3 * FX_ONE, 5 * FX_ONE, 7 * FX_ONE, 5 * FX_ONE, 10 * FX_ONE, 0);
    vg.fill();
    let reqs = vg.end_frame();
    let sub = &reqs[0].geometry[0];
    assert!(sub.pts.len() >= 2);
    assert_eq!(*sub.pts.last().unwrap(), (10 * FX_ONE, 0));
}

#[test]
fn quad_ends_exactly_at_its_endpoint() {
    let mut vg = Context::new();
    vg.begin_frame(100 * FX_ONE, 100 * FX_ONE, FX_ONE);
    vg.begin_path();
    vg.move_to(0, 0);
    vg.quad_to(5 * FX_ONE, 5 * FX_ONE, 10 * FX_ONE, 0);
    vg.fill();
    let reqs = vg.end_frame();
    let sub = &reqs[0].geometry[0];
    assert_eq!(*sub.pts.last().unwrap(), (10 * FX_ONE, 0));
}

#[test]
fn begin_path_discards_accumulated_geometry() {
    let mut vg = Context::new();
    vg.begin_frame(100 * FX_ONE, 100 * FX_ONE, FX_ONE);
    vg.begin_path();
    vg.rect(0, 0, 10 * FX_ONE, 10 * FX_ONE);
    vg.begin_path();
    vg.fill();
    let reqs = vg.end_frame();
    assert_eq!(reqs.len(), 0);
}

#[test]
fn cancel_frame_discards_requests() {
    let mut vg = Context::new();
    vg.begin_frame(100 * FX_ONE, 100 * FX_ONE, FX_ONE);
    vg.begin_path();
    vg.rect(0, 0, 10 * FX_ONE, 10 * FX_ONE);
    vg.fill();
    vg.cancel_frame();
    vg.begin_frame(100 * FX_ONE, 100 * FX_ONE, FX_ONE);
    let reqs = vg.end_frame();
    assert_eq!(reqs.len(), 0);
}

#[test]
fn requests_flush_in_emission_order() {
    let mut vg = Context::new();
    vg.begin_frame(100 * FX_ONE, 100 * FX_ONE, FX_ONE);
    vg.begin_path();
    vg.rect(0, 0, FX_ONE, FX_ONE);
    vg.fill();
    vg.stroke();
    let reqs = vg.end_frame();
    assert_eq!(reqs.len(), 2);
    assert_eq!(reqs[0].kind, DrawKind::Fill);
    assert_eq!(reqs[1].kind, DrawKind::Stroke);
}

#[test]
fn stroke_width_scales_with_the_transform() {
    let mut vg = Context::new();
    vg.begin_frame(100 * FX_ONE, 100 * FX_ONE, FX_ONE);
    vg.scale(2 * FX_ONE, 2 * FX_ONE);
    vg.stroke_width(FX_ONE);
    vg.begin_path();
    vg.rect(0, 0, FX_ONE, FX_ONE);
    vg.stroke();
    let reqs = vg.end_frame();
    assert_eq!(reqs.len(), 1);
    assert_eq!(reqs[0].stroke_width, 2 * FX_ONE);
}

#[test]
fn fill_carries_composite_scissor_and_alpha() {
    let mut vg = Context::new();
    vg.begin_frame(100 * FX_ONE, 100 * FX_ONE, FX_ONE);
    vg.global_composite_operation(CompositeOperation::Lighter);
    vg.global_alpha(FX_ONE / 4);
    vg.scissor(0, 0, 20 * FX_ONE, 20 * FX_ONE);
    vg.begin_path();
    vg.rect(0, 0, FX_ONE, FX_ONE);
    vg.fill();
    let reqs = vg.end_frame();
    let req = &reqs[0];
    assert_eq!(req.composite.src_rgb, BlendFactor::One);
    assert_eq!(req.composite.dst_rgb, BlendFactor::One);
    assert_eq!(req.alpha, FX_ONE / 4);
    let sc = req.scissor.expect("scissor is set");
    assert_eq!(sc.extent, [10 * FX_ONE, 10 * FX_ONE]);
    assert_eq!(sc.xform.m[4], 10 * FX_ONE);
    assert_eq!(sc.xform.m[5], 10 * FX_ONE);
}

#[test]
fn composite_operation_table() {
    let mut vg = Context::new();
    vg.begin_frame(10 * FX_ONE, 10 * FX_ONE, FX_ONE);
    // the default is source-over
    assert_eq!(vg.state.composite_operation.src_rgb, BlendFactor::One);
    assert_eq!(vg.state.composite_operation.dst_rgb, BlendFactor::OneMinusSourceAlpha);
    vg.global_composite_operation(CompositeOperation::Copy);
    assert_eq!(vg.state.composite_operation.src_rgb, BlendFactor::One);
    assert_eq!(vg.state.composite_operation.dst_rgb, BlendFactor::Zero);
    vg.global_composite_operation(CompositeOperation::DestinationIn);
    assert_eq!(vg.state.composite_operation.src_rgb, BlendFactor::Zero);
    assert_eq!(vg.state.composite_operation.dst_alpha, BlendFactor::SourceAlpha);
    vg.global_composite_blend_func(BlendFactor::SourceAlpha, BlendFactor::DestinationAlpha);
    assert_eq!(vg.state.composite_operation.src_rgb, BlendFactor::SourceAlpha);
    assert_eq!(vg.state.composite_operation.src_alpha, BlendFactor::SourceAlpha);
}

#[test]
fn scissor_reset_and_intersection() {
    let mut vg = Context::new();
    vg.begin_frame(100 * FX_ONE, 100 * FX_ONE, FX_ONE);
    assert!(vg.state.scissor.is_none());
    // intersecting with no scissor set just sets the rectangle
    vg.intersect_scissor(0, 0, 10 * FX_ONE, 10 * FX_ONE);
    let sc = vg.state.scissor.expect("scissor set");
    assert_eq!(sc.extent, [5 * FX_ONE, 5 * FX_ONE]);
    // intersecting under the identity transform intersects the rectangles
    vg.intersect_scissor(5 * FX_ONE, 5 * FX_ONE, 10 * FX_ONE, 10 * FX_ONE);
    let sc = vg.state.scissor.expect("scissor still set");
    assert!(near(sc.extent[0], 5 * FX_ONE / 2, 4));
    assert!(near(sc.extent[1], 5 * FX_ONE / 2, 4));
    assert!(near(sc.xform.m[4], 15 * FX_ONE / 2, 8));
    vg.reset_scissor();
    assert!(vg.state.scissor.is_none());
    // negative sizes clamp to an empty rectangle
    vg.scissor(0, 0, -FX_ONE, -FX_ONE);
    let sc = vg.state.scissor.expect("scissor set");
    assert_eq!(sc.extent, [0, 0]);
}

#[test]
fn circle_fill_is_one_closed_subpath() {
    let mut vg = Context::new();
    vg.begin_frame(100 * FX_ONE, 100 * FX_ONE, FX_ONE);
    vg.begin_path();
    vg.circle(50 * FX_ONE, 50 * FX_ONE, 10 * FX_ONE);
    vg.fill();
    let reqs = vg.end_frame();
    assert_eq!(reqs.len(), 1);
    assert_eq!(reqs[0].geometry.len(), 1);
    let sub = &reqs[0].geometry[0];
    assert!(sub.closed);
    assert!(sub.pts.len() >= 5);
    // the first point is on the circle, left of center
    assert_eq!(sub.pts[0], (40 * FX_ONE, 50 * FX_ONE));
}

#[test]
fn rounded_rect_with_negligible_radii_is_a_rect() {
    let mut vg = Context::new();
    vg.begin_frame(100 * FX_ONE, 100 * FX_ONE, FX_ONE);
    vg.begin_path();
    vg.rounded_rect(0, 0, 10 * FX_ONE, 10 * FX_ONE, 0);
    vg.fill();
    let reqs = vg.end_frame();
    let sub = &reqs[0].geometry[0];
    assert!(sub.closed);
    assert_eq!(sub.pts.len(), 4);
}

#[test]
fn rounded_rect_with_real_radii_has_corner_arcs() {
    let mut vg = Context::new();
    vg.begin_frame(100 * FX_ONE, 100 * FX_ONE, FX_ONE);
    vg.begin_path();
    vg.rounded_rect(0, 0, 10 * FX_ONE, 10 * FX_ONE, 2 * FX_ONE);
    vg.fill();
    let reqs = vg.end_frame();
    let sub = &reqs[0].geometry[0];
    assert!(sub.closed);
    assert!(sub.pts.len() > 4);
}

#[test]
fn arc_starts_a_subpath_near_its_start_angle() {
    let mut vg = Context::new();
    vg.begin_frame(100 * FX_ONE, 100 * FX_ONE, FX_ONE);
    vg.begin_path();
    vg.arc(0, 0, 10 * FX_ONE, 0, FX_PI, Winding::CW);
    vg.fill();
    let reqs = vg.end_frame();
    assert_eq!(reqs.len(), 1);
    let sub = &reqs[0].geometry[0];
    assert!(sub.pts.len() >= 3);
    // starts near (10, 0), ends near (-10, 0)
    assert!(near(sub.pts[0].0, 10 * FX_ONE, 200));
    assert!(near(sub.pts[0].1, 0, 200));
    let last = sub.pts.last().unwrap();
    assert!(near(last.0, -10 * FX_ONE, 2000));
    assert!(near(last.1, 0, 2000));
}

#[test]
fn arc_to_with_a_degenerate_corner_draws_a_line() {
    let mut vg = Context::new();
    vg.begin_frame(100 * FX_ONE, 100 * FX_ONE, FX_ONE);
    vg.begin_path();
    vg.move_to(0, 0);
    // zero radius degenerates to a line to the corner
    vg.arc_to(5 * FX_ONE, 0, 5 * FX_ONE, 5 * FX_ONE, 0);
    vg.fill();
    let reqs = vg.end_frame();
    let sub = &reqs[0].geometry[0];
    assert_eq!(sub.pts.len(), 2);
    assert_eq!(sub.pts[1], (5 * FX_ONE, 0));
}

#[test]
fn arc_to_rounds_a_corner() {
    let mut vg = Context::new();
    vg.begin_frame(100 * FX_ONE, 100 * FX_ONE, FX_ONE);
    vg.begin_path();
    vg.move_to(0, 0);
    vg.arc_to(10 * FX_ONE, 0, 10 * FX_ONE, 10 * FX_ONE, 2 * FX_ONE);
    vg.fill();
    let reqs = vg.end_frame();
    let sub = &reqs[0].geometry[0];
    assert!(sub.pts.len() > 2);
}

#[test]
fn path_winding_tags_the_last_subpath() {
    let mut vg = Context::new();
    vg.begin_frame(100 * FX_ONE, 100 * FX_ONE, FX_ONE);
    vg.begin_path();
    vg.rect(0, 0, 10 * FX_ONE, 10 * FX_ONE);
    vg.rect(2 * FX_ONE, 2 * FX_ONE, 6 * FX_ONE, 6 * FX_ONE);
    vg.path_winding(Winding::CW); // the inner rectangle becomes a hole
    vg.fill();
    let reqs = vg.end_frame();
    let geo = &reqs[0].geometry;
    assert_eq!(geo.len(), 2);
    assert!(matches!(geo[0].winding, Winding::CCW));
    assert!(matches!(geo[1].winding, Winding::CW));
}

#[test]
fn image_registry_tracks_handles_and_sizes() {
    let mut vg = Context::new();
    let data: Vec<u8> = vec![0u8; 4];
    let h1 = vg.create_image_rgba(100, 50, ImageFlags::Repeatx.bits(), &data);
    let h2 = vg.create_image_rgba(8, 8, 0, &data);
    assert_eq!(h1, 1);
    assert_eq!(h2, 2);
    assert_eq!(vg.image_size(h1), Some((100, 50)));
    assert_eq!(vg.image_size(h2), Some((8, 8)));
    assert_eq!(vg.image_size(99), None);
    assert_eq!(vg.image_size(0), None);
    assert!(vg.update_image(h1, &data));
    assert!(!vg.update_image(99, &data));
    vg.delete_image(h1);
    assert_eq!(vg.image_size(h1), None);
    assert!(!vg.update_image(h1, &data));
    assert_eq!(vg.image_size(h2), Some((8, 8)));
}

#[test]
fn alignment_and_image_flag_bits() {
    assert_eq!(Align::Left.bits(), 1);
    assert_eq!(Align::Center.bits(), 2);
    assert_eq!(Align::Right.bits(), 4);
    assert_eq!(Align::Top.bits(), 8);
    assert_eq!(Align::Middle.bits(), 16);
    assert_eq!(Align::Bottom.bits(), 32);
    assert_eq!(Align::Baseline.bits(), 64);
    assert_eq!(ImageFlags::GenerateMipmaps.bits(), 1);
    assert_eq!(ImageFlags::Nearest.bits(), 32);
    // the default text alignment is left | baseline
    let vg = Context::new();
    assert_eq!(vg.state.text_align, Align::Left.bits() | Align::Baseline.bits());
}

#[test]
fn text_style_setters_land_in_the_state() {
    let mut vg = Context::new();
    vg.begin_frame(10 * FX_ONE, 10 * FX_ONE, FX_ONE);
    vg.font_size(20 * FX_ONE);
    vg.font_blur(FX_ONE);
    vg.text_letter_spacing(123);
    vg.text_line_height(3 * FX_ONE / 2);
    vg.text_align(Align::Center.bits() | Align::Middle.bits());
    vg.font_face_id(4);
    assert_eq!(vg.state.font_size, 20 * FX_ONE);
    assert_eq!(vg.state.font_blur, FX_ONE);
    assert_eq!(vg.state.letter_spacing, 123);
    assert_eq!(vg.state.line_height, 3 * FX_ONE / 2);
    assert_eq!(vg.state.text_align, 18);
    assert_eq!(vg.state.font_id, 4);
}

#[test]
fn device_pixel_ratio_tightens_the_tolerance() {
    let mut vg = Context::new();
    vg.begin_frame(100 * FX_ONE, 100 * FX_ONE, 2 * FX_ONE);
    assert_eq!(vg.tess_tol, 8192); // 0.25 / 2
    assert_eq!(vg.device_pixel_ratio, 2 * FX_ONE);
}

#[test]
fn raw_transform_premultiplies() {
    let mut vg = Context::new();
    vg.begin_frame(10 * FX_ONE, 10 * FX_ONE, FX_ONE);
    vg.translate(10 * FX_ONE, 0);
    // a raw matrix equal to scale(2, 2)
    vg.transform(2 * FX_ONE, 0, 0, 2 * FX_ONE, 0, 0);
    let t = vg.current_transform();
    // the scale applies to the point first, the translation after
    assert_eq!(t.point(3 * FX_ONE, 4 * FX_ONE), (16 * FX_ONE, 8 * FX_ONE));
}

#[test]
fn skew_x_shears_x_by_y() {
    let mut vg = Context::new();
    vg.begin_frame(10 * FX_ONE, 10 * FX_ONE, FX_ONE);
    vg.skew_x(51472); // 45 degrees: x' = x + tan(pi/4) * y
    let t = vg.current_transform();
    let p = t.point(0, FX_ONE);
    assert!(near(p.0, FX_ONE, 900));
    assert_eq!(p.1, FX_ONE);
}

#[test]
fn skew_y_shears_y_by_x() {
    let mut vg = Context::new();
    vg.begin_frame(10 * FX_ONE, 10 * FX_ONE, FX_ONE);
    vg.skew_y(51472); // 45 degrees: y' = y + tan(pi/4) * x
    let t = vg.current_transform();
    let p = t.point(FX_ONE, 0);
    assert_eq!(p.0, FX_ONE);
    assert!(near(p.1, FX_ONE, 900));
}

#[test]
fn emitted_geometry_is_a_snapshot() {
    let mut vg = Context::new();
    vg.begin_frame(100 * FX_ONE, 100 * FX_ONE, FX_ONE);
    vg.begin_path();
    vg.rect(0, 0, FX_ONE, FX_ONE);
    vg.fill();
    // mutating the path afterwards must not change the emitted request
    vg.line_to(50 * FX_ONE, 50 * FX_ONE);
    let reqs = vg.end_frame();
    assert_eq!(reqs[0].geometry[0].pts.len(), 4);
}

#[test]
fn default_state_values() {
    let vg = Context::new();
    assert_eq!(vg.state.stroke_width, FX_ONE);
    assert_eq!(vg.state.miter_limit, 10 * FX_ONE);
    assert_eq!(vg.state.alpha, FX_ONE);
    assert!(vg.state.shape_anti_alias);
    assert!(matches!(vg.state.line_cap, LineCap::Butt));
    assert_eq!(vg.state.font_size, 16 * FX_ONE);
    // white solid fill, black solid stroke
    assert_eq!(vg.state.fill.inner_color, Color::rgbf(FX_ONE, FX_ONE, FX_ONE));
    assert_eq!(vg.state.stroke.inner_color, Color::rgbf(0, 0, 0));
}

#[test]
fn stroke_resolves_its_paint_at_stroke_time() {
    let mut vg = Context::new();
    vg.begin_frame(100 * FX_ONE, 100 * FX_ONE, FX_ONE);
    let paint = Paint::radial_gradient(
        0,
        0,
        FX_ONE,
        2 * FX_ONE,
        Color::rgb(255, 255, 255),
        Color::rgb(0, 0, 0),
    );
    vg.translate(30 * FX_ONE, 0);
    vg.stroke_paint(paint);
    vg.begin_path();
    vg.rect(0, 0, FX_ONE, FX_ONE);
    vg.stroke();
    let reqs = vg.end_frame();
    assert_eq!(reqs[0].paint.xform.m[4], 30 * FX_ONE);
}
