//! The drawing context: the facade orchestrating transforms, paints, the
//! path builder and the render-state stack.
//!
//! A frame is driven by one caller: `begin_frame` opens it, drawing calls
//! mutate the current [`RenderState`] or append to the current [`Path`],
//! `fill` and `stroke` resolve the accumulated geometry and paint into a
//! [`DrawRequest`], and `end_frame` hands the batched requests, in emission
//! order, to the caller's rasterizer. `cancel_frame` discards them instead.
//!
//! Restoring with an empty save stack is a documented no-op, keeping the
//! API forgiving for mismatched save/restore pairs.

use vstd::prelude::*;

use crate::color::Color;
use crate::fixed::FX_ONE;
use crate::fixed::Fx;
use crate::fixed::fx_add;
use crate::fixed::fx_add_spec;
use crate::fixed::fx_clamp;
use crate::fixed::fx_div;
use crate::fixed::fx_half;
use crate::fixed::fx_half_spec;
use crate::fixed::fx_len;
use crate::fixed::fx_max;
use crate::fixed::fx_mul;
use crate::fixed::fx_mul_spec;
use crate::fixed::fx_sub;
use crate::fixed::fx_sub_spec;
use crate::math::Mat;
use crate::math::Transform;
use crate::math::apply_x;
use crate::math::apply_y;
use crate::math::mat_identity;
use crate::math::mul_mat;
use crate::paint::Paint;
use crate::path::Path;
use crate::path::SubModel;
use crate::path::Subpath;
use crate::path::path_model;
use crate::path::path_wf;
use crate::state::BlendFactor;
use crate::state::CompositeOperation;
use crate::state::CompositeOperationState;
use crate::state::LineCap;
use crate::state::LineJoin;
use crate::state::RenderState;
use crate::state::Scissor;
use crate::state::Winding;
use crate::state::is_default_state;

verus! {

/// Whether a draw request fills its geometry or strokes it.
#[derive(Clone, Copy, Debug, PartialEq, Eq, Structural)]
pub enum DrawKind {
    Fill,
    Stroke,
}

/// One resolved drawing command for the rasterizer: device-space geometry,
/// the paint with its transform composed with the global transform active
/// at emission time, the composite state, the scissor and the global alpha.
#[derive(Clone, Debug)]
pub struct DrawRequest {
    pub kind: DrawKind,
    pub geometry: Vec<Subpath>,
    pub paint: Paint,
    pub composite: CompositeOperationState,
    pub scissor: Option<Scissor>,
    pub alpha: Fx,
    /// The device-space stroke width; meaningful for stroke requests only.
    pub stroke_width: Fx,
}

/// The save transition: push a snapshot of the current state.
pub open spec fn save_t(stack: Seq<RenderState>, s: RenderState) -> (Seq<RenderState>,
    RenderState) {
    (stack.push(s), s)
}

/// The restore transition: pop the newest snapshot and make it current, or
/// do nothing on an empty stack.
pub open spec fn restore_t(stack: Seq<RenderState>, s: RenderState) -> (Seq<RenderState>,
    RenderState) {
    if stack.len() == 0 {
        (stack, s)
    } else {
        (stack.drop_last(), stack.last())
    }
}

/// Save/restore law: a restore directly after a save leaves both the
/// current state and the stack exactly as they were.
pub proof fn lemma_save_restore(stack: Seq<RenderState>, s: RenderState)
    ensures
        restore_t(save_t(stack, s).0, save_t(stack, s).1).0 =~= stack,
        restore_t(save_t(stack, s).0, save_t(stack, s).1).1 == s,
{
    assert(stack.push(s).drop_last() =~= stack);
}

/// The drawing context: the current render state, its save stack, the
/// current path with its user-space bookkeeping, and the draw requests
/// accumulated for the open frame.
#[derive(Debug)]
pub struct Context {
    /// The one current render state.
    pub state: RenderState,
    /// Saved snapshots, newest last.
    pub stack: Vec<RenderState>,
    /// The current path, in device space.
    pub path: Path,
    /// The last path position, in user space (untransformed).
    pub command_x: Fx,
    /// The last path position, in user space (untransformed).
    pub command_y: Fx,
    /// Draw requests accumulated since the frame opened, in emission order.
    pub requests: Vec<DrawRequest>,
    /// Whether a frame is open.
    pub frame_open: bool,
    /// The device pixel ratio given to `begin_frame`.
    pub device_pixel_ratio: Fx,
    /// Curve flattening tolerance, in device units; adapts to the ratio.
    pub tess_tol: Fx,
    /// Distance below which two points count as coincident.
    pub dist_tol: Fx,
    /// Sizes of the images registered with the context, by handle minus
    /// one; `None` marks a deleted image.
    pub images: Vec<Option<(i64, i64)>>,
}

/// The context's well-formedness: every subpath of the current path holds
/// at least one point.
pub open spec fn ctx_wf(c: Context) -> bool {
    path_wf(c.path@)
}

impl Context {
    /// A fresh context: default state, empty stack, empty path, no frame
    /// open, unit pixel ratio.
    pub fn new() -> (r: Context)
        ensures
            ctx_wf(r),
            is_default_state(r.state),
            r.stack@.len() == 0,
            r.path@.len() == 0,
            r.requests@.len() == 0,
            !r.frame_open,
            r.device_pixel_ratio == FX_ONE,
            r.images@.len() == 0,
    {
        Context {
            state: RenderState::new_default(),
            stack: Vec::new(),
            path: Path::new(),
            command_x: 0,
            command_y: 0,
            requests: Vec::new(),
            frame_open: false,
            device_pixel_ratio: FX_ONE,
            tess_tol: 16384,
            dist_tol: 655,
            images: Vec::new(),
        }
    }

    /// Begins a new frame for a window of the given size: resets the path,
    /// the state stack and the pending requests, installs one default
    /// render state, and derives the flattening tolerances from the device
    /// pixel ratio.
    pub fn begin_frame(&mut self, window_width: Fx, window_height: Fx, device_pixel_ratio: Fx)
        ensures
            ctx_wf(*final(self)),
            is_default_state(final(self).state),
            final(self).stack@.len() == 0,
            final(self).path@.len() == 0,
            final(self).requests@.len() == 0,
            final(self).frame_open,
            final(self).device_pixel_ratio == device_pixel_ratio,
            final(self).tess_tol as int == crate::fixed::fx_div_spec(16384, device_pixel_ratio as int),
            final(self).dist_tol as int == crate::fixed::fx_div_spec(655, device_pixel_ratio as int),
            final(self).images@ == old(self).images@,
    {
        self.state = RenderState::new_default();
        self.stack.clear();
        self.path.clear();
        self.command_x = 0;
        self.command_y = 0;
        self.requests.clear();
        self.frame_open = true;
        self.device_pixel_ratio = device_pixel_ratio;
        self.tess_tol = fx_div(16384, device_pixel_ratio);
        self.dist_tol = fx_div(655, device_pixel_ratio);
    }

    /// Cancels the open frame: every accumulated draw request is discarded
    /// without being emitted.
    pub fn cancel_frame(&mut self)
        ensures
            *final(self) == (Context {
                requests: final(self).requests,
                frame_open: false,
                ..*old(self)
            }),
            final(self).requests@.len() == 0,
    {
        self.requests.clear();
        self.frame_open = false;
    }

    /// Ends the frame: returns every accumulated draw request, in emission
    /// order, for the caller's rasterizer, and closes the frame.
    pub fn end_frame(&mut self) -> (r: Vec<DrawRequest>)
        ensures
            r@ == old(self).requests@,
            *final(self) == (Context {
                requests: final(self).requests,
                frame_open: false,
                ..*old(self)
            }),
            final(self).requests@.len() == 0,
    {
        let mut out: Vec<DrawRequest> = Vec::new();
        core::mem::swap(&mut out, &mut self.requests);
        self.frame_open = false;
        out
    }

    /// Pushes a snapshot of the current render state onto the save stack;
    /// the current state is unchanged.
    pub fn save(&mut self)
        ensures
            (final(self).stack@, final(self).state) == save_t(old(self).stack@, old(self).state),
            *final(self) == (Context { stack: final(self).stack, ..*old(self) }),
    {
        let snapshot: RenderState = self.state;
        self.stack.push(snapshot);
    }

    /// Pops the newest snapshot and makes it the current state; with an
    /// empty stack this is a no-op.
    pub fn restore(&mut self)
        ensures
            (final(self).stack@, final(self).state) == restore_t(
                old(self).stack@,
                old(self).state,
            ),
            *final(self) == (Context {
                stack: final(self).stack,
                state: final(self).state,
                ..*old(self)
            }),
    {
        if self.stack.len() > 0 {
            let top: RenderState = self.stack.pop().unwrap();
            self.state = top;
        }
    }

    /// Resets the current render state to the default values, leaving the
    /// save stack untouched.
    pub fn reset(&mut self)
        ensures
            is_default_state(final(self).state),
            *final(self) == (Context { state: final(self).state, ..*old(self) }),
    {
        self.state = RenderState::new_default();
    }

    /// Sets the composite operation.
    pub fn global_composite_operation(&mut self, op: CompositeOperation)
        ensures
            final(self).state.composite_operation.src_rgb == crate::state::composite_blend(op).0,
            final(self).state.composite_operation.dst_rgb == crate::state::composite_blend(op).1,
            final(self).state.composite_operation.src_alpha == crate::state::composite_blend(op).0,
            final(self).state.composite_operation.dst_alpha == crate::state::composite_blend(op).1,
            *final(self) == (Context { state: final(self).state, ..*old(self) }),
            final(self).state == (RenderState {
                composite_operation: final(self).state.composite_operation,
                ..old(self).state
            }),
    {
        self.state.composite_operation = CompositeOperationState::from_operation(op);
    }

    /// Sets the composite operation from one blend-factor pair, shared by
    /// the color and alpha components.
    pub fn global_composite_blend_func(&mut self, sfactor: BlendFactor, dfactor: BlendFactor)
        ensures
            final(self).state.composite_operation == (CompositeOperationState {
                src_rgb: sfactor,
                dst_rgb: dfactor,
                src_alpha: sfactor,
                dst_alpha: dfactor,
            }),
            *final(self) == (Context { state: final(self).state, ..*old(self) }),
            final(self).state == (RenderState {
                composite_operation: final(self).state.composite_operation,
                ..old(self).state
            }),
    {
        self.state.composite_operation = CompositeOperationState::from_blend_func(sfactor, dfactor);
    }

    /// Sets the composite operation with separate blend factors for the
    /// color and alpha components.
    pub fn global_composite_blend_func_separate(
        &mut self,
        src_rgb: BlendFactor,
        dst_rgb: BlendFactor,
        src_alpha: BlendFactor,
        dst_alpha: BlendFactor,
    )
        ensures
            final(self).state.composite_operation == (CompositeOperationState {
                src_rgb,
                dst_rgb,
                src_alpha,
                dst_alpha,
            }),
            *final(self) == (Context { state: final(self).state, ..*old(self) }),
            final(self).state == (RenderState {
                composite_operation: final(self).state.composite_operation,
                ..old(self).state
            }),
    {
        self.state.composite_operation = CompositeOperationState {
            src_rgb,
            dst_rgb,
            src_alpha,
            dst_alpha,
        };
    }

    /// Sets whether shapes are drawn with antialiasing; enabled by default.
    pub fn shape_anti_alias(&mut self, enabled: bool)
        ensures
            final(self).state == (RenderState { shape_anti_alias: enabled, ..old(self).state }),
            *final(self) == (Context { state: final(self).state, ..*old(self) }),
    {
        self.state.shape_anti_alias = enabled;
    }

    /// Sets the stroke style to a solid color.
    pub fn stroke_color(&mut self, color: Color)
        ensures
            final(self).state == (RenderState { stroke: final(self).state.stroke, ..old(self).state }),
            final(self).state.stroke.kind == crate::paint::PaintKind::Solid,
            final(self).state.stroke.inner_color == color,
            final(self).state.stroke.outer_color == color,
            final(self).state.stroke.xform@ == mat_identity(),
            *final(self) == (Context { state: final(self).state, ..*old(self) }),
    {
        self.state.stroke = Paint::from_color(color);
    }

    /// Sets the stroke style to a paint (a gradient or a pattern). The
    /// paint is stored as given; its transform is composed with the global
    /// transform at stroke time, not now.
    pub fn stroke_paint(&mut self, paint: Paint)
        ensures
            final(self).state == (RenderState { stroke: paint, ..old(self).state }),
            *final(self) == (Context { state: final(self).state, ..*old(self) }),
    {
        self.state.stroke = paint;
    }

    /// Sets the fill style to a solid color.
    pub fn fill_color(&mut self, color: Color)
        ensures
            final(self).state == (RenderState { fill: final(self).state.fill, ..old(self).state }),
            final(self).state.fill.kind == crate::paint::PaintKind::Solid,
            final(self).state.fill.inner_color == color,
            final(self).state.fill.outer_color == color,
            final(self).state.fill.xform@ == mat_identity(),
            *final(self) == (Context { state: final(self).state, ..*old(self) }),
    {
        self.state.fill = Paint::from_color(color);
    }

    /// Sets the fill style to a paint (a gradient or a pattern). The paint
    /// is stored as given; its transform is composed with the global
    /// transform at fill time, not now.
    pub fn fill_paint(&mut self, paint: Paint)
        ensures
            final(self).state == (RenderState { fill: paint, ..old(self).state }),
            *final(self) == (Context { state: final(self).state, ..*old(self) }),
    {
        self.state.fill = paint;
    }

    /// Sets the miter limit, which controls when a sharp corner is beveled.
    pub fn miter_limit(&mut self, limit: Fx)
        ensures
            final(self).state == (RenderState { miter_limit: limit, ..old(self).state }),
            *final(self) == (Context { state: final(self).state, ..*old(self) }),
    {
        self.state.miter_limit = limit;
    }

    /// Sets the stroke width.
    pub fn stroke_width(&mut self, size: Fx)
        ensures
            final(self).state == (RenderState { stroke_width: size, ..old(self).state }),
            *final(self) == (Context { state: final(self).state, ..*old(self) }),
    {
        self.state.stroke_width = size;
    }

    /// Sets how the ends of stroked lines are drawn.
    pub fn line_cap(&mut self, cap: LineCap)
        ensures
            final(self).state == (RenderState { line_cap: cap, ..old(self).state }),
            *final(self) == (Context { state: final(self).state, ..*old(self) }),
    {
        self.state.line_cap = cap;
    }

    /// Sets how sharp stroked corners are drawn.
    pub fn line_join(&mut self, join: LineJoin)
        ensures
            final(self).state == (RenderState { line_join: join, ..old(self).state }),
            *final(self) == (Context { state: final(self).state, ..*old(self) }),
    {
        self.state.line_join = join;
    }

    /// Sets the transparency applied to every rendered shape.
    pub fn global_alpha(&mut self, alpha: Fx)
        ensures
            final(self).state == (RenderState { alpha, ..old(self).state }),
            *final(self) == (Context { state: final(self).state, ..*old(self) }),
    {
        self.state.alpha = alpha;
    }

    /// Sets the font size of the current text style.
    pub fn font_size(&mut self, size: Fx)
        ensures
            final(self).state == (RenderState { font_size: size, ..old(self).state }),
            *final(self) == (Context { state: final(self).state, ..*old(self) }),
    {
        self.state.font_size = size;
    }

    /// Sets the blur of the current text style.
    pub fn font_blur(&mut self, blur: Fx)
        ensures
            final(self).state == (RenderState { font_blur: blur, ..old(self).state }),
            *final(self) == (Context { state: final(self).state, ..*old(self) }),
    {
        self.state.font_blur = blur;
    }

    /// Sets the letter spacing of the current text style.
    pub fn text_letter_spacing(&mut self, spacing: Fx)
        ensures
            final(self).state == (RenderState { letter_spacing: spacing, ..old(self).state }),
            *final(self) == (Context { state: final(self).state, ..*old(self) }),
    {
        self.state.letter_spacing = spacing;
    }

    /// Sets the proportional line height of the current text style.
    pub fn text_line_height(&mut self, line_height: Fx)
        ensures
            final(self).state == (RenderState { line_height, ..old(self).state }),
            *final(self) == (Context { state: final(self).state, ..*old(self) }),
    {
        self.state.line_height = line_height;
    }

    /// Sets the text alignment of the current text style, as a bitmask of
    /// [`crate::state::Align`] bits.
    pub fn text_align(&mut self, align: u32)
        ensures
            final(self).state == (RenderState { text_align: align, ..old(self).state }),
            *final(self) == (Context { state: final(self).state, ..*old(self) }),
    {
        self.state.text_align = align;
    }

    /// Sets the font of the current text style by handle.
    pub fn font_face_id(&mut self, font: isize)
        ensures
            final(self).state == (RenderState { font_id: font, ..old(self).state }),
            *final(self) == (Context { state: final(self).state, ..*old(self) }),
    {
        self.state.font_id = font;
    }

    /// Resets the current transform to the identity.
    pub fn reset_transform(&mut self)
        ensures
            final(self).state.xform@ == mat_identity(),
            final(self).state == (RenderState { xform: final(self).state.xform, ..old(self).state }),
            *final(self) == (Context { state: final(self).state, ..*old(self) }),
    {
        self.state.xform = Transform::identity();
    }

    /// Premultiplies the current coordinate system by the given matrix: the
    /// given map applies to points first, the old current transform after.
    pub fn transform(&mut self, a: Fx, b: Fx, c: Fx, d: Fx, e: Fx, f: Fx)
        ensures
            final(self).state.xform@ == mul_mat(
                old(self).state.xform@,
                Mat { a: a as int, b: b as int, c: c as int, d: d as int, e: e as int, f: f as int },
            ),
            final(self).state == (RenderState { xform: final(self).state.xform, ..old(self).state }),
            *final(self) == (Context { state: final(self).state, ..*old(self) }),
    {
        let t = Transform { m: [a, b, c, d, e, f] };
        self.state.xform.set_premultiply(&t);
    }

    /// Translates the current coordinate system.
    pub fn translate(&mut self, x: Fx, y: Fx)
        ensures
            final(self).state.xform@ == mul_mat(
                old(self).state.xform@,
                Mat { a: FX_ONE as int, b: 0, c: 0, d: FX_ONE as int, e: x as int, f: y as int },
            ),
            final(self).state == (RenderState { xform: final(self).state.xform, ..old(self).state }),
            *final(self) == (Context { state: final(self).state, ..*old(self) }),
    {
        let mut t = Transform::identity();
        t.set_translate(x, y);
        self.state.xform.set_premultiply(&t);
    }

    /// Rotates the current coordinate system; the angle is in radians.
    pub fn rotate(&mut self, angle: Fx)
        ensures
            final(self).state.xform@ == mul_mat(
                old(self).state.xform@,
                Mat {
                    a: crate::fixed::fx_cos_spec(angle as int),
                    b: crate::fixed::fx_sin_spec(angle as int),
                    c: -crate::fixed::fx_sin_spec(angle as int),
                    d: crate::fixed::fx_cos_spec(angle as int),
                    e: 0,
                    f: 0,
                },
            ),
            final(self).state == (RenderState { xform: final(self).state.xform, ..old(self).state }),
            *final(self) == (Context { state: final(self).state, ..*old(self) }),
    {
        let mut t = Transform::identity();
        t.set_rotate(angle);
        self.state.xform.set_premultiply(&t);
    }

    /// Skews the current coordinate system along x (`x' = x + tan(angle) * y`);
    /// the angle is in radians.
    pub fn skew_x(&mut self, angle: Fx)
        ensures
            final(self).state.xform@ == mul_mat(
                old(self).state.xform@,
                Mat {
                    a: FX_ONE as int,
                    b: 0,
                    c: crate::fixed::fx_tan_spec(angle as int),
                    d: FX_ONE as int,
                    e: 0,
                    f: 0,
                },
            ),
            final(self).state == (RenderState { xform: final(self).state.xform, ..old(self).state }),
            *final(self) == (Context { state: final(self).state, ..*old(self) }),
    {
        let mut t = Transform::identity();
        t.set_skew_x(angle);
        self.state.xform.set_premultiply(&t);
    }

    /// Skews the current coordinate system along y (`y' = y + tan(angle) * x`);
    /// the angle is in radians.
    pub fn skew_y(&mut self, angle: Fx)
        ensures
            final(self).state.xform@ == mul_mat(
                old(self).state.xform@,
                Mat {
                    a: FX_ONE as int,
                    b: crate::fixed::fx_tan_spec(angle as int),
                    c: 0,
                    d: FX_ONE as int,
                    e: 0,
                    f: 0,
                },
            ),
            final(self).state == (RenderState { xform: final(self).state.xform, ..old(self).state }),
            *final(self) == (Context { state: final(self).state, ..*old(self) }),
    {
        let mut t = Transform::identity();
        t.set_skew_y(angle);
        self.state.xform.set_premultiply(&t);
    }

    /// Scales the current coordinate system.
    pub fn scale(&mut self, x: Fx, y: Fx)
        ensures
            final(self).state.xform@ == mul_mat(
                old(self).state.xform@,
                Mat { a: x as int, b: 0, c: 0, d: y as int, e: 0, f: 0 },
            ),
            final(self).state == (RenderState { xform: final(self).state.xform, ..old(self).state }),
            *final(self) == (Context { state: final(self).state, ..*old(self) }),
    {
        let mut t = Transform::identity();
        t.set_scale(x, y);
        self.state.xform.set_premultiply(&t);
    }

    /// Clears the current path and sub-paths.
    pub fn begin_path(&mut self)
        ensures
            final(self).path@ =~= Seq::<SubModel>::empty(),
            ctx_wf(*final(self)),
            only_path_changed(*old(self), *final(self)),
            final(self).command_x == 0 && final(self).command_y == 0,
    {
        self.path.clear();
        self.command_x = 0;
        self.command_y = 0;
    }

    /// Starts a new subpath at the given point, which is mapped through the
    /// current transform as it enters the path.
    pub fn move_to(&mut self, x: Fx, y: Fx)
        requires
            ctx_wf(*old(self)),
        ensures
            ctx_wf(*final(self)),
            only_path_changed(*old(self), *final(self)),
            final(self).path@ =~= old(self).path@.push(
                SubModel {
                    pts: seq![tf_spec(old(self).state.xform@, x, y)],
                    closed: false,
                    winding: Winding::CCW,
                },
            ),
            final(self).command_x == x && final(self).command_y == y,
    {
        let (dx, dy): (Fx, Fx) = self.state.xform.point(x, y);
        self.path.move_to(dx, dy);
        self.command_x = x;
        self.command_y = y;
    }

    /// Adds a line segment from the last point to the given point, mapped
    /// through the current transform; silently ignored when no subpath is
    /// open.
    pub fn line_to(&mut self, x: Fx, y: Fx)
        requires
            ctx_wf(*old(self)),
        ensures
            ctx_wf(*final(self)),
            old(self).path@.len() == 0 ==> *final(self) == *old(self),
            old(self).path@.len() > 0 ==> only_path_changed(*old(self), *final(self))
                && final(self).path@ =~= crate::path::updated_last(
                old(self).path@,
                SubModel {
                    pts: old(self).path@.last().pts.push(tf_spec(old(self).state.xform@, x, y)),
                    closed: old(self).path@.last().closed,
                    winding: old(self).path@.last().winding,
                },
            ) && final(self).command_x == x && final(self).command_y == y,
    {
        if !self.path.is_empty() {
            let (dx, dy): (Fx, Fx) = self.state.xform.point(x, y);
            self.path.line_to(dx, dy);
            self.command_x = x;
            self.command_y = y;
        }
    }

    /// Adds a cubic Bezier segment from the last point via two control
    /// points to the given point, all mapped through the current transform
    /// and flattened under the current tolerance; silently ignored when no
    /// subpath is open.
    pub fn bezier_to(&mut self, c1x: Fx, c1y: Fx, c2x: Fx, c2y: Fx, x: Fx, y: Fx)
        requires
            ctx_wf(*old(self)),
        ensures
            ctx_wf(*final(self)),
            old(self).path@.len() == 0 ==> *final(self) == *old(self),
            old(self).path@.len() > 0 ==> only_path_changed(*old(self), *final(self))
                && crate::path::appended_to_last(
                old(self).path@,
                final(self).path@,
                tf_spec(old(self).state.xform@, x, y),
            ) && final(self).command_x == x && final(self).command_y == y,
            old(self).path@.len() > 0 ==> final(self).path@ =~= crate::path::updated_last(
                old(self).path@,
                SubModel {
                    pts: old(self).path@.last().pts + crate::path::tess_spec(
                        old(self).path@.last().pts.last().0,
                        old(self).path@.last().pts.last().1,
                        tf_spec(old(self).state.xform@, c1x, c1y).0,
                        tf_spec(old(self).state.xform@, c1x, c1y).1,
                        tf_spec(old(self).state.xform@, c2x, c2y).0,
                        tf_spec(old(self).state.xform@, c2x, c2y).1,
                        tf_spec(old(self).state.xform@, x, y).0,
                        tf_spec(old(self).state.xform@, x, y).1,
                        old(self).tess_tol,
                        0,
                    ),
                    closed: old(self).path@.last().closed,
                    winding: old(self).path@.last().winding,
                },
            ),
    {
        if !self.path.is_empty() {
            let start: (Fx, Fx) = self.path.last_point().unwrap();
            let (t2x, t2y): (Fx, Fx) = self.state.xform.point(c1x, c1y);
            let (t3x, t3y): (Fx, Fx) = self.state.xform.point(c2x, c2y);
            let (t4x, t4y): (Fx, Fx) = self.state.xform.point(x, y);
            proof {
                assert((t2x, t2y) == tf_spec(old(self).state.xform@, c1x, c1y));
                assert((t3x, t3y) == tf_spec(old(self).state.xform@, c2x, c2y));
                assert((t4x, t4y) == tf_spec(old(self).state.xform@, x, y));
            }
            let tol: Fx = self.tess_tol;
            self.path.bezier_to(start.0, start.1, t2x, t2y, t3x, t3y, t4x, t4y, tol);
            self.command_x = x;
            self.command_y = y;
            proof {
                lemma_appended_wf(old(self).path@, self.path@);
            }
        }
    }

    /// Adds a quadratic Bezier segment from the last point via a control
    /// point to the given point: the segment is elevated to cubic form and
    /// flattened identically; silently ignored when no subpath is open.
    pub fn quad_to(&mut self, cx: Fx, cy: Fx, x: Fx, y: Fx)
        requires
            ctx_wf(*old(self)),
        ensures
            ctx_wf(*final(self)),
            old(self).path@.len() == 0 ==> *final(self) == *old(self),
            old(self).path@.len() > 0 ==> only_path_changed(*old(self), *final(self))
                && crate::path::appended_to_last(
                old(self).path@,
                final(self).path@,
                tf_spec(old(self).state.xform@, x, y),
            ) && final(self).command_x == x && final(self).command_y == y,
            old(self).path@.len() > 0 ==> final(self).path@ =~= crate::path::updated_last(
                old(self).path@,
                SubModel {
                    pts: old(self).path@.last().pts + crate::path::tess_spec(
                        old(self).path@.last().pts.last().0,
                        old(self).path@.last().pts.last().1,
                        tf_spec(
                            old(self).state.xform@,
                            elevate(old(self).command_x, cx),
                            elevate(old(self).command_y, cy),
                        ).0,
                        tf_spec(
                            old(self).state.xform@,
                            elevate(old(self).command_x, cx),
                            elevate(old(self).command_y, cy),
                        ).1,
                        tf_spec(old(self).state.xform@, elevate(x, cx), elevate(y, cy)).0,
                        tf_spec(old(self).state.xform@, elevate(x, cx), elevate(y, cy)).1,
                        tf_spec(old(self).state.xform@, x, y).0,
                        tf_spec(old(self).state.xform@, x, y).1,
                        old(self).tess_tol,
                        0,
                    ),
                    closed: old(self).path@.last().closed,
                    winding: old(self).path@.last().winding,
                },
            ),
    {
        let x0: Fx = self.command_x;
        let y0: Fx = self.command_y;
        let c1x: Fx = fx_add(x0, fx_mul(43691, fx_sub(cx, x0)));
        let c1y: Fx = fx_add(y0, fx_mul(43691, fx_sub(cy, y0)));
        let c2x: Fx = fx_add(x, fx_mul(43691, fx_sub(cx, x)));
        let c2y: Fx = fx_add(y, fx_mul(43691, fx_sub(cy, y)));
        proof {
            assert(c1x == elevate(x0, cx) && c1y == elevate(y0, cy));
            assert(c2x == elevate(x, cx) && c2y == elevate(y, cy));
        }
        self.bezier_to(c1x, c1y, c2x, c2y, x, y);
    }

    /// Closes the current subpath with an implicit segment back to its
    /// first point; silently ignored when no subpath is open.
    pub fn close_path(&mut self)
        requires
            ctx_wf(*old(self)),
        ensures
            ctx_wf(*final(self)),
            old(self).path@.len() == 0 ==> *final(self) == *old(self),
            old(self).path@.len() > 0 ==> only_path_changed(*old(self), *final(self))
                && final(self).path@ =~= crate::path::updated_last(
                old(self).path@,
                SubModel {
                    pts: old(self).path@.last().pts,
                    closed: true,
                    winding: old(self).path@.last().winding,
                },
            ) && final(self).command_x == old(self).command_x && final(self).command_y == old(
                self,
            ).command_y,
    {
        self.path.close();
    }

    /// Tags the most recently started subpath's winding; silently ignored
    /// when no subpath is open.
    pub fn path_winding(&mut self, dir: Winding)
        requires
            ctx_wf(*old(self)),
        ensures
            ctx_wf(*final(self)),
            old(self).path@.len() == 0 ==> *final(self) == *old(self),
            old(self).path@.len() > 0 ==> only_path_changed(*old(self), *final(self))
                && final(self).path@ =~= crate::path::updated_last(
                old(self).path@,
                SubModel {
                    pts: old(self).path@.last().pts,
                    closed: old(self).path@.last().closed,
                    winding: dir,
                },
            ),
    {
        self.path.set_winding(dir);
    }

    /// Creates a new rectangle-shaped subpath: four corners in counter-
    /// clockwise order, closed.
    pub fn rect(&mut self, x: Fx, y: Fx, w: Fx, h: Fx)
        requires
            ctx_wf(*old(self)),
        ensures
            ctx_wf(*final(self)),
            only_path_changed(*old(self), *final(self)),
            final(self).path@ =~= old(self).path@.push(
                SubModel {
                    pts: seq![
                        tf_spec(old(self).state.xform@, x, y),
                        tf_spec(
                            old(self).state.xform@,
                            x,
                            fx_add_spec(y as int, h as int) as i64,
                        ),
                        tf_spec(
                            old(self).state.xform@,
                            fx_add_spec(x as int, w as int) as i64,
                            fx_add_spec(y as int, h as int) as i64,
                        ),
                        tf_spec(
                            old(self).state.xform@,
                            fx_add_spec(x as int, w as int) as i64,
                            y,
                        ),
                    ],
                    closed: true,
                    winding: Winding::CCW,
                },
            ),
    {
        let xw: Fx = fx_add(x, w);
        let yh: Fx = fx_add(y, h);
        let ghost m0 = old(self).path@;
        let ghost xf = old(self).state.xform@;
        let ghost q0 = tf_spec(xf, x, y);
        let ghost q1 = tf_spec(xf, x, fx_add_spec(y as int, h as int) as i64);
        let ghost q2 = tf_spec(
            xf,
            fx_add_spec(x as int, w as int) as i64,
            fx_add_spec(y as int, h as int) as i64,
        );
        let ghost q3 = tf_spec(xf, fx_add_spec(x as int, w as int) as i64, y);
        self.move_to(x, y);
        proof {
            assert(self.path@ =~~= m0.push(
                SubModel { pts: seq![q0], closed: false, winding: Winding::CCW },
            ));
        }
        self.line_to(x, yh);
        proof {
            assert(self.path@ =~~= m0.push(
                SubModel { pts: seq![q0, q1], closed: false, winding: Winding::CCW },
            ));
        }
        self.line_to(xw, yh);
        proof {
            assert(self.path@ =~~= m0.push(
                SubModel { pts: seq![q0, q1, q2], closed: false, winding: Winding::CCW },
            ));
        }
        self.line_to(xw, y);
        proof {
            assert(self.path@ =~~= m0.push(
                SubModel { pts: seq![q0, q1, q2, q3], closed: false, winding: Winding::CCW },
            ));
        }
        self.close_path();
        proof {
            assert(self.path@ =~~= old(self).path@.push(
                SubModel {
                    pts: seq![
                        tf_spec(old(self).state.xform@, x, y),
                        tf_spec(old(self).state.xform@, x, fx_add_spec(y as int, h as int) as i64),
                        tf_spec(
                            old(self).state.xform@,
                            fx_add_spec(x as int, w as int) as i64,
                            fx_add_spec(y as int, h as int) as i64,
                        ),
                        tf_spec(old(self).state.xform@, fx_add_spec(x as int, w as int) as i64, y),
                    ],
                    closed: true,
                    winding: Winding::CCW,
                },
            ));
        }
    }

    /// Creates a new rounded-rectangle-shaped subpath with one corner
    /// radius for all four corners.
    pub fn rounded_rect(&mut self, x: Fx, y: Fx, w: Fx, h: Fx, r: Fx)
        requires
            ctx_wf(*old(self)),
        ensures
            ctx_wf(*final(self)),
            only_path_changed(*old(self), *final(self)),
            added_subpath(old(self).path@, final(self).path@),
            r < 6554 ==> final(self).path@ =~= old(self).path@.push(
                rect_submodel(old(self).state.xform@, x, y, w, h),
            ),
            r >= 6554 ==> final(self).path@ =~= old(self).path@.push(
                SubModel {
                    pts: rrect_pts(
                        old(self).state.xform@,
                        x,
                        y,
                        w,
                        h,
                        rr_radius(r, fxi_half(crate::path::fxi_abs(w)), w),
                        rr_radius(r, fxi_half(crate::path::fxi_abs(h)), h),
                        rr_radius(r, fxi_half(crate::path::fxi_abs(w)), w),
                        rr_radius(r, fxi_half(crate::path::fxi_abs(h)), h),
                        rr_radius(r, fxi_half(crate::path::fxi_abs(w)), w),
                        rr_radius(r, fxi_half(crate::path::fxi_abs(h)), h),
                        rr_radius(r, fxi_half(crate::path::fxi_abs(w)), w),
                        rr_radius(r, fxi_half(crate::path::fxi_abs(h)), h),
                        old(self).tess_tol,
                    ),
                    closed: true,
                    winding: Winding::CCW,
                },
            ),
    {
        self.rounded_rect_varying(x, y, w, h, r, r, r, r);
    }

    /// Creates a new rounded-rectangle-shaped subpath with a separate
    /// radius for each corner; radii are clamped to the half-extents, and
    /// when all four are negligible the shape degenerates to a plain
    /// rectangle. The emitted points are exactly [`rrect_pts`].
    #[verifier::rlimit(100)]
    pub fn rounded_rect_varying(
        &mut self,
        x: Fx,
        y: Fx,
        w: Fx,
        h: Fx,
        rad_top_left: Fx,
        rad_top_right: Fx,
        rad_bottom_right: Fx,
        rad_bottom_left: Fx,
    )
        requires
            ctx_wf(*old(self)),
        ensures
            ctx_wf(*final(self)),
            only_path_changed(*old(self), *final(self)),
            added_subpath(old(self).path@, final(self).path@),
            rad_top_left < 6554 && rad_top_right < 6554 && rad_bottom_right < 6554
                && rad_bottom_left < 6554 ==> final(self).path@ =~= old(self).path@.push(
                rect_submodel(old(self).state.xform@, x, y, w, h),
            ),
            !(rad_top_left < 6554 && rad_top_right < 6554 && rad_bottom_right < 6554
                && rad_bottom_left < 6554) ==> final(self).path@ =~= old(self).path@.push(
                SubModel {
                    pts: rrect_pts(
                        old(self).state.xform@,
                        x,
                        y,
                        w,
                        h,
                        rr_radius(rad_top_left, fxi_half(crate::path::fxi_abs(w)), w),
                        rr_radius(rad_top_left, fxi_half(crate::path::fxi_abs(h)), h),
                        rr_radius(rad_top_right, fxi_half(crate::path::fxi_abs(w)), w),
                        rr_radius(rad_top_right, fxi_half(crate::path::fxi_abs(h)), h),
                        rr_radius(rad_bottom_right, fxi_half(crate::path::fxi_abs(w)), w),
                        rr_radius(rad_bottom_right, fxi_half(crate::path::fxi_abs(h)), h),
                        rr_radius(rad_bottom_left, fxi_half(crate::path::fxi_abs(w)), w),
                        rr_radius(rad_bottom_left, fxi_half(crate::path::fxi_abs(h)), h),
                        old(self).tess_tol,
                    ),
                    closed: true,
                    winding: Winding::CCW,
                },
            ),
    {
        if rad_top_left < 6554 && rad_top_right < 6554 && rad_bottom_right < 6554
            && rad_bottom_left < 6554 {
            self.rect(x, y, w, h);
            proof {
                assert(self.path@ =~~= old(self).path@.push(
                    rect_submodel(old(self).state.xform@, x, y, w, h),
                ));
            }
        } else {
            let halfw: Fx = fx_half(crate::fixed::fx_abs(w));
            let halfh: Fx = fx_half(crate::fixed::fx_abs(h));
            let rx_bl: Fx = with_sign(crate::fixed::fx_min(rad_bottom_left, halfw), w);
            let ry_bl: Fx = with_sign(crate::fixed::fx_min(rad_bottom_left, halfh), h);
            let rx_br: Fx = with_sign(crate::fixed::fx_min(rad_bottom_right, halfw), w);
            let ry_br: Fx = with_sign(crate::fixed::fx_min(rad_bottom_right, halfh), h);
            let rx_tr: Fx = with_sign(crate::fixed::fx_min(rad_top_right, halfw), w);
            let ry_tr: Fx = with_sign(crate::fixed::fx_min(rad_top_right, halfh), h);
            let rx_tl: Fx = with_sign(crate::fixed::fx_min(rad_top_left, halfw), w);
            let ry_tl: Fx = with_sign(crate::fixed::fx_min(rad_top_left, halfh), h);
            proof {
                assert(halfw == fxi_half(crate::path::fxi_abs(w)) && halfh == fxi_half(
                    crate::path::fxi_abs(h),
                ));
                assert(rx_bl == rr_radius(rad_bottom_left, halfw, w) && ry_bl == rr_radius(
                    rad_bottom_left,
                    halfh,
                    h,
                ));
                assert(rx_br == rr_radius(rad_bottom_right, halfw, w) && ry_br == rr_radius(
                    rad_bottom_right,
                    halfh,
                    h,
                ));
                assert(rx_tr == rr_radius(rad_top_right, halfw, w) && ry_tr == rr_radius(
                    rad_top_right,
                    halfh,
                    h,
                ));
                assert(rx_tl == rr_radius(rad_top_left, halfw, w) && ry_tl == rr_radius(
                    rad_top_left,
                    halfh,
                    h,
                ));
            }
            let xw: Fx = fx_add(x, w);
            let yh: Fx = fx_add(y, h);
            let c1ax: Fx = x;
            let c1ay: Fx = fx_sub(yh, fx_mul(ry_bl, 29341));
            let c1bx: Fx = fx_add(x, fx_mul(rx_bl, 29341));
            let c2ax: Fx = fx_sub(xw, fx_mul(rx_br, 29341));
            let c2by: Fx = fx_sub(yh, fx_mul(ry_br, 29341));
            let c3ay: Fx = fx_add(y, fx_mul(ry_tr, 29341));
            let c3bx: Fx = fx_sub(xw, fx_mul(rx_tr, 29341));
            let c4ax: Fx = fx_add(x, fx_mul(rx_tl, 29341));
            let c4by: Fx = fx_add(y, fx_mul(ry_tl, 29341));
            proof {
                assert(xw == crate::path::fxi_add(x, w) && yh == crate::path::fxi_add(y, h));
                assert(c1ay == crate::path::fxi_sub(yh, crate::path::fxi_mul(ry_bl, 29341)));
                assert(c1bx == crate::path::fxi_add(x, crate::path::fxi_mul(rx_bl, 29341)));
                assert(c2ax == crate::path::fxi_sub(xw, crate::path::fxi_mul(rx_br, 29341)));
                assert(c2by == crate::path::fxi_sub(yh, crate::path::fxi_mul(ry_br, 29341)));
                assert(c3ay == crate::path::fxi_add(y, crate::path::fxi_mul(ry_tr, 29341)));
                assert(c3bx == crate::path::fxi_sub(xw, crate::path::fxi_mul(rx_tr, 29341)));
                assert(c4ax == crate::path::fxi_add(x, crate::path::fxi_mul(rx_tl, 29341)));
                assert(c4by == crate::path::fxi_add(y, crate::path::fxi_mul(ry_tl, 29341)));
            }
            let ghost m0 = old(self).path@;
            let ghost xf = old(self).state.xform@;
            let ghost p0 = tf_spec(xf, x, crate::path::fxi_add(y, ry_tl));
            let ghost q1 = tf_spec(xf, x, crate::path::fxi_sub(yh, ry_bl));
            let ghost run1 = crate::path::tess_spec(
                q1.0,
                q1.1,
                tf_spec(xf, c1ax, c1ay).0,
                tf_spec(xf, c1ax, c1ay).1,
                tf_spec(xf, c1bx, yh).0,
                tf_spec(xf, c1bx, yh).1,
                tf_spec(xf, crate::path::fxi_add(x, rx_bl), yh).0,
                tf_spec(xf, crate::path::fxi_add(x, rx_bl), yh).1,
                old(self).tess_tol,
                0,
            );
            let ghost q2 = tf_spec(xf, crate::path::fxi_sub(xw, rx_br), yh);
            let ghost run2 = crate::path::tess_spec(
                q2.0,
                q2.1,
                tf_spec(xf, c2ax, yh).0,
                tf_spec(xf, c2ax, yh).1,
                tf_spec(xf, xw, c2by).0,
                tf_spec(xf, xw, c2by).1,
                tf_spec(xf, xw, crate::path::fxi_sub(yh, ry_br)).0,
                tf_spec(xf, xw, crate::path::fxi_sub(yh, ry_br)).1,
                old(self).tess_tol,
                0,
            );
            let ghost q3 = tf_spec(xf, xw, crate::path::fxi_add(y, ry_tr));
            let ghost run3 = crate::path::tess_spec(
                q3.0,
                q3.1,
                tf_spec(xf, xw, c3ay).0,
                tf_spec(xf, xw, c3ay).1,
                tf_spec(xf, c3bx, y).0,
                tf_spec(xf, c3bx, y).1,
                tf_spec(xf, crate::path::fxi_sub(xw, rx_tr), y).0,
                tf_spec(xf, crate::path::fxi_sub(xw, rx_tr), y).1,
                old(self).tess_tol,
                0,
            );
            let ghost q4 = tf_spec(xf, crate::path::fxi_add(x, rx_tl), y);
            let ghost run4 = crate::path::tess_spec(
                q4.0,
                q4.1,
                tf_spec(xf, c4ax, y).0,
                tf_spec(xf, c4ax, y).1,
                tf_spec(xf, x, c4by).0,
                tf_spec(xf, x, c4by).1,
                p0.0,
                p0.1,
                old(self).tess_tol,
                0,
            );
            self.move_to(x, fx_add(y, ry_tl));
            proof {
                assert(self.path@ =~~= m0.push(
                    SubModel { pts: seq![p0], closed: false, winding: Winding::CCW },
                ));
            }
            self.line_to(x, fx_sub(yh, ry_bl));
            proof {
                assert(self.path@ =~~= m0.push(
                    SubModel { pts: seq![p0].push(q1), closed: false, winding: Winding::CCW },
                ));
            }
            self.bezier_to(c1ax, c1ay, c1bx, yh, fx_add(x, rx_bl), yh);
            proof {
                assert(self.path@ =~~= m0.push(
                    SubModel {
                        pts: seq![p0].push(q1) + run1,
                        closed: false,
                        winding: Winding::CCW,
                    },
                ));
            }
            self.line_to(fx_sub(xw, rx_br), yh);
            proof {
                assert(self.path@ =~~= m0.push(
                    SubModel {
                        pts: seq![p0].push(q1) + run1 + seq![q2],
                        closed: false,
                        winding: Winding::CCW,
                    },
                ));
            }
            self.bezier_to(c2ax, yh, xw, c2by, xw, fx_sub(yh, ry_br));
            proof {
                assert(self.path@ =~~= m0.push(
                    SubModel {
                        pts: seq![p0].push(q1) + run1 + seq![q2] + run2,
                        closed: false,
                        winding: Winding::CCW,
                    },
                ));
            }
            self.line_to(xw, fx_add(y, ry_tr));
            proof {
                assert(self.path@ =~~= m0.push(
                    SubModel {
                        pts: seq![p0].push(q1) + run1 + seq![q2] + run2 + seq![q3],
                        closed: false,
                        winding: Winding::CCW,
                    },
                ));
            }
            self.bezier_to(xw, c3ay, c3bx, y, fx_sub(xw, rx_tr), y);
            proof {
                assert(self.path@ =~~= m0.push(
                    SubModel {
                        pts: seq![p0].push(q1) + run1 + seq![q2] + run2 + seq![q3] + run3,
                        closed: false,
                        winding: Winding::CCW,
                    },
                ));
            }
            self.line_to(fx_add(x, rx_tl), y);
            proof {
                assert(self.path@ =~~= m0.push(
                    SubModel {
                        pts: seq![p0].push(q1) + run1 + seq![q2] + run2 + seq![q3] + run3
                            + seq![q4],
                        closed: false,
                        winding: Winding::CCW,
                    },
                ));
            }
            self.bezier_to(c4ax, y, x, c4by, x, fx_add(y, ry_tl));
            proof {
                assert(self.path@ =~~= m0.push(
                    SubModel {
                        pts: seq![p0].push(q1) + run1 + seq![q2] + run2 + seq![q3] + run3
                            + seq![q4] + run4,
                        closed: false,
                        winding: Winding::CCW,
                    },
                ));
            }
            self.close_path();
            proof {
                assert(self.path@ =~~= m0.push(
                    SubModel {
                        pts: rrect_pts(
                            xf,
                            x,
                            y,
                            w,
                            h,
                            rr_radius(rad_top_left, halfw, w),
                            rr_radius(rad_top_left, halfh, h),
                            rr_radius(rad_top_right, halfw, w),
                            rr_radius(rad_top_right, halfh, h),
                            rr_radius(rad_bottom_right, halfw, w),
                            rr_radius(rad_bottom_right, halfh, h),
                            rr_radius(rad_bottom_left, halfw, w),
                            rr_radius(rad_bottom_left, halfh, h),
                            old(self).tess_tol,
                        ),
                        closed: true,
                        winding: Winding::CCW,
                    },
                ));
                assert(added_subpath(m0, self.path@));
            }
        }
    }

    /// Creates a new ellipse-shaped subpath centered at `(cx, cy)` with
    /// the given radii, as four Bezier quarter-arcs, closed; the emitted
    /// points are exactly [`ellipse_pts`].
    pub fn ellipse(&mut self, cx: Fx, cy: Fx, rx: Fx, ry: Fx)
        requires
            ctx_wf(*old(self)),
        ensures
            ctx_wf(*final(self)),
            only_path_changed(*old(self), *final(self)),
            added_subpath(old(self).path@, final(self).path@),
            final(self).path@ =~= old(self).path@.push(
                SubModel {
                    pts: ellipse_pts(old(self).state.xform@, cx, cy, rx, ry, old(self).tess_tol),
                    closed: true,
                    winding: Winding::CCW,
                },
            ),
    {
        let kx: Fx = fx_mul(rx, 36195);
        let ky: Fx = fx_mul(ry, 36195);
        let left: Fx = fx_sub(cx, rx);
        let right: Fx = fx_add(cx, rx);
        let top: Fx = fx_sub(cy, ry);
        let bottom: Fx = fx_add(cy, ry);
        let cylo: Fx = fx_sub(cy, ky);
        let cyhi: Fx = fx_add(cy, ky);
        let cxlo: Fx = fx_sub(cx, kx);
        let cxhi: Fx = fx_add(cx, kx);
        proof {
            assert(kx == crate::path::fxi_mul(rx, 36195) && ky == crate::path::fxi_mul(ry, 36195));
            assert(left == crate::path::fxi_sub(cx, rx) && right == crate::path::fxi_add(cx, rx));
            assert(top == crate::path::fxi_sub(cy, ry) && bottom == crate::path::fxi_add(cy, ry));
            assert(cylo == crate::path::fxi_sub(cy, ky) && cyhi == crate::path::fxi_add(cy, ky));
            assert(cxlo == crate::path::fxi_sub(cx, kx) && cxhi == crate::path::fxi_add(cx, kx));
        }
        let ghost m0 = old(self).path@;
        let ghost xf = old(self).state.xform@;
        let ghost run = ellipse_pts(xf, cx, cy, rx, ry, old(self).tess_tol);
        self.move_to(left, cy);
        proof {
            assert(self.path@ =~~= m0.push(
                SubModel { pts: seq![tf_spec(xf, left, cy)], closed: false, winding: Winding::CCW },
            ));
        }
        self.bezier_to(left, cyhi, cxlo, bottom, cx, bottom);
        proof {
            assert(self.path@ =~~= m0.push(
                SubModel {
                    pts: seq![tf_spec(xf, left, cy)] + ell_run1(xf, cx, cy, rx, ry, old(
                        self,
                    ).tess_tol),
                    closed: false,
                    winding: Winding::CCW,
                },
            ));
        }
        self.bezier_to(cxhi, bottom, right, cyhi, right, cy);
        proof {
            assert(self.path@ =~~= m0.push(
                SubModel {
                    pts: seq![tf_spec(xf, left, cy)] + ell_run1(xf, cx, cy, rx, ry, old(
                        self,
                    ).tess_tol) + ell_run2(xf, cx, cy, rx, ry, old(self).tess_tol),
                    closed: false,
                    winding: Winding::CCW,
                },
            ));
        }
        self.bezier_to(right, cylo, cxhi, top, cx, top);
        proof {
            assert(self.path@ =~~= m0.push(
                SubModel {
                    pts: seq![tf_spec(xf, left, cy)] + ell_run1(xf, cx, cy, rx, ry, old(
                        self,
                    ).tess_tol) + ell_run2(xf, cx, cy, rx, ry, old(self).tess_tol) + ell_run3(
                        xf,
                        cx,
                        cy,
                        rx,
                        ry,
                        old(self).tess_tol,
                    ),
                    closed: false,
                    winding: Winding::CCW,
                },
            ));
        }
        self.bezier_to(cxlo, top, left, cylo, left, cy);
        proof {
            assert(self.path@ =~~= m0.push(
                SubModel { pts: run, closed: false, winding: Winding::CCW },
            ));
        }
        self.close_path();
        proof {
            assert(self.path@ =~~= m0.push(
                SubModel { pts: run, closed: true, winding: Winding::CCW },
            ));
            assert(added_subpath(m0, self.path@));
        }
    }

    /// Creates a new circle-shaped subpath.    /// Creates a new circle-shaped subpath: an ellipse with equal radii.
    pub fn circle(&mut self, cx: Fx, cy: Fx, r: Fx)
        requires
            ctx_wf(*old(self)),
        ensures
            ctx_wf(*final(self)),
            only_path_changed(*old(self), *final(self)),
            added_subpath(old(self).path@, final(self).path@),
            final(self).path@ =~= old(self).path@.push(
                SubModel {
                    pts: ellipse_pts(old(self).state.xform@, cx, cy, r, r, old(self).tess_tol),
                    closed: true,
                    winding: Winding::CCW,
                },
            ),
    {
        self.ellipse(cx, cy, r, r);
    }

    /// Appends a circular arc centered at `(cx, cy)` with radius `r`,
    /// swept from angle `a0` to `a1` (radians) in the given direction, as
    /// Bezier quarter-arc segments. With a subpath already open, the arc's
    /// start is joined to the current point with a line; otherwise a new
    /// subpath starts at the arc's start.
    #[verifier::rlimit(100)]
    pub fn arc(&mut self, cx: Fx, cy: Fx, r: Fx, a0: Fx, a1: Fx, dir: Winding)
        requires
            ctx_wf(*old(self)),
        ensures
            ctx_wf(*final(self)),
            only_path_changed(*old(self), *final(self)),
            old(self).path@.len() == 0 ==> final(self).path@.len() == 1
                && final(self).path@[0].pts.len() >= 1 && final(self).path@[0].pts[0] == tf_spec(
                old(self).state.xform@,
                arc_start_x(cx, r, a0),
                arc_start_y(cy, r, a0),
            ),
            old(self).path@.len() > 0 ==> extends_last(old(self).path@, final(self).path@)
                && final(self).path@.last().pts.len() > old(self).path@.last().pts.len()
                && final(self).path@.last().pts[old(self).path@.last().pts.len() as int] == tf_spec(
                old(self).state.xform@,
                arc_start_x(cx, r, a0),
                arc_start_y(cy, r, a0),
            ),
            ({
                let da = arc_sweep(a0, a1, dir);
                let nd = arc_divs(da);
                let step = arc_step(da, nd);
                final(self).command_x == arc_point_x(cx, r, a0, step, nd)
                    && final(self).command_y == arc_point_y(cy, r, a0, step, nd)
                    && final(self).path@.last().pts.last() == tf_spec(
                    old(self).state.xform@,
                    arc_point_x(cx, r, a0, step, nd),
                    arc_point_y(cy, r, a0, step, nd),
                )
            }),
    {
        let diff: Fx = fx_sub(a1, a0);
        let da: Fx = match dir {
            Winding::CW => {
                if crate::fixed::fx_abs(diff) >= crate::fixed::FX_TAU {
                    crate::fixed::FX_TAU
                } else {
                    crate::fixed::emod(diff, crate::fixed::FX_TAU)
                }
            },
            Winding::CCW => {
                if crate::fixed::fx_abs(diff) >= crate::fixed::FX_TAU {
                    -crate::fixed::FX_TAU
                } else if diff > 0 {
                    fx_sub(diff, crate::fixed::FX_TAU)
                } else {
                    diff
                }
            },
        };
        let da_c: Fx = fx_clamp(da, -crate::fixed::FX_TAU, crate::fixed::FX_TAU);
        let mag: Fx = crate::fixed::fx_abs(da_c);
        let nd_raw: i64 = (((mag as u64) + 51472) / 102944) as i64;
        let nd: usize = if nd_raw < 1 {
            1
        } else if nd_raw > 5 {
            5
        } else {
            nd_raw as usize
        };
        let step: Fx = if da_c >= 0 {
            ((da_c as u64) / (nd as u64)) as i64
        } else {
            -((((-da_c) as u64) / (nd as u64)) as i64)
        };
        proof {
            assert(da_c == arc_sweep(a0, a1, dir));
            assert(nd as int == arc_divs(da_c));
            assert(step == arc_step(da_c, nd as int));
        }
        let hda: Fx = fx_half(step);
        let mut kappa: Fx = crate::fixed::fx_abs(
            fx_div(
                fx_mul(87381, fx_sub(FX_ONE, crate::fixed::fx_cos(hda))),
                crate::fixed::fx_sin(hda),
            ),
        );
        match dir {
            Winding::CCW => {
                kappa = crate::fixed::fx_neg(kappa);
            },
            Winding::CW => {},
        }
        let mut prevx: Fx = 0;
        let mut prevy: Fx = 0;
        let mut prev_tanx: Fx = 0;
        let mut prev_tany: Fx = 0;
        let mut lastx: Fx = self.command_x;
        let mut lasty: Fx = self.command_y;
        let mut i: usize = 0;
        while i <= nd
            invariant
                ctx_wf(*self),
                nd >= 1,
                nd <= 5,
                i <= nd + 1,
                -411775 <= step && step <= 411775,
                only_path_changed(*old(self), *self),
                self.state == old(self).state,
                old(self).path@.len() == 0 && i == 0 ==> self.path@.len() == 0,
                old(self).path@.len() == 0 && i > 0 ==> self.path@.len() == 1 && self.path@[0].pts.len()
                    >= 1 && self.path@[0].pts[0] == tf_spec(
                    old(self).state.xform@,
                    arc_start_x(cx, r, a0),
                    arc_start_y(cy, r, a0),
                ),
                old(self).path@.len() > 0 ==> self.path@.len() > 0 && extends_last(
                    old(self).path@,
                    self.path@,
                ),
                i == 0 ==> self.path@ == old(self).path@,
                old(self).path@.len() > 0 && i > 0 ==> self.path@.last().pts.len()
                    > old(self).path@.last().pts.len()
                    && self.path@.last().pts[old(self).path@.last().pts.len() as int] == tf_spec(
                    old(self).state.xform@,
                    arc_start_x(cx, r, a0),
                    arc_start_y(cy, r, a0),
                ),
                step == arc_step(arc_sweep(a0, a1, dir), nd as int),
                nd as int == arc_divs(arc_sweep(a0, a1, dir)),
                i > 0 ==> lastx == arc_point_x(cx, r, a0, step, i - 1) && lasty == arc_point_y(
                    cy,
                    r,
                    a0,
                    step,
                    i - 1,
                ),
                i > 0 ==> self.path@.len() > 0 && self.path@.last().pts.len() >= 1
                    && self.path@.last().pts.last() == tf_spec(
                    old(self).state.xform@,
                    arc_point_x(cx, r, a0, step, i - 1),
                    arc_point_y(cy, r, a0, step, i - 1),
                ),
            decreases nd + 1 - i,
        {
            proof {
                assert(-2058875 <= (step as int) * (i as int) && (step as int) * (i as int)
                    <= 2058875) by (nonlinear_arith)
                    requires
                        -411775 <= step as int && step as int <= 411775,
                        0 <= i as int && i as int <= 5,
                ;
            }
            let ang: Fx = fx_add(a0, fx_clamp(step * (i as i64), -2058875, 2058875));
            proof {
                assert(ang == arc_angle(a0, step, i as int));
            }
            let dxv: Fx = crate::fixed::fx_cos(ang);
            let dyv: Fx = crate::fixed::fx_sin(ang);
            let px: Fx = fx_add(cx, fx_mul(dxv, r));
            let py: Fx = fx_add(cy, fx_mul(dyv, r));
            proof {
                assert(px == arc_point_x(cx, r, a0, step, i as int) && py == arc_point_y(
                    cy,
                    r,
                    a0,
                    step,
                    i as int,
                ));
            }
            let tanx: Fx = crate::fixed::fx_neg(fx_mul(fx_mul(dyv, r), kappa));
            let tany: Fx = fx_mul(fx_mul(dxv, r), kappa);
            if i == 0 {
                proof {
                    assert(step * 0i64 == 0);
                    assert(ang as int == crate::fixed::fx_clip(a0 as int));
                    assert(px == arc_start_x(cx, r, a0) && py == arc_start_y(cy, r, a0));
                }
                let (dpx, dpy): (Fx, Fx) = self.state.xform.point(px, py);
                proof {
                    assert((dpx, dpy) == tf_spec(
                        old(self).state.xform@,
                        arc_start_x(cx, r, a0),
                        arc_start_y(cy, r, a0),
                    ));
                }
                if self.path.is_empty() {
                    self.path.move_to(dpx, dpy);
                } else {
                    let ghost pre = self.path@;
                    self.path.line_to(dpx, dpy);
                    proof {
                        lemma_push_extends(pre, self.path@, (dpx, dpy));
                        if old(self).path@.len() > 0 {
                            lemma_extends_trans(old(self).path@, pre, self.path@);
                            assert(self.path@.last().pts[old(self).path@.last().pts.len() as int]
                                == (dpx, dpy));
                        }
                    }
                }
            } else {
                let start: (Fx, Fx) = self.path.last_point().unwrap();
                let (c1x, c1y): (Fx, Fx) = self.state.xform.point(
                    fx_add(prevx, prev_tanx),
                    fx_add(prevy, prev_tany),
                );
                let (c2x, c2y): (Fx, Fx) = self.state.xform.point(
                    fx_sub(px, tanx),
                    fx_sub(py, tany),
                );
                let (ex, ey): (Fx, Fx) = self.state.xform.point(px, py);
                let tol: Fx = self.tess_tol;
                let ghost pre = self.path@;
                self.path.bezier_to(start.0, start.1, c1x, c1y, c2x, c2y, ex, ey, tol);
                proof {
                    lemma_appended_wf(pre, self.path@);
                    lemma_appended_extends(pre, self.path@);
                    if old(self).path@.len() > 0 {
                        lemma_extends_trans(old(self).path@, pre, self.path@);
                        let n = old(self).path@.last().pts.len() as int;
                        assert(self.path@.last().pts.subrange(0, pre.last().pts.len() as int)
                            =~= pre.last().pts);
                        assert(self.path@.last().pts[n] == pre.last().pts[n]);
                    }
                }
            }
            prevx = px;
            prevy = py;
            prev_tanx = tanx;
            prev_tany = tany;
            lastx = px;
            lasty = py;
            i = i + 1;
        }
        self.command_x = lastx;
        self.command_y = lasty;
    }

    /// Adds an arc segment rounding the corner defined by the current
    /// point, `(x1, y1)` and `(x2, y2)` with the given radius. Degenerate
    /// corners (coincident points, a colinear corner or a negligible
    /// radius) reduce to a line to `(x1, y1)`; with no subpath open the
    /// command is silently ignored.
    pub fn arc_to(&mut self, x1: Fx, y1: Fx, x2: Fx, y2: Fx, radius: Fx)
        requires
            ctx_wf(*old(self)),
        ensures
            ctx_wf(*final(self)),
            only_path_changed(*old(self), *final(self)),
            old(self).path@.len() == 0 ==> *final(self) == *old(self),
            old(self).path@.len() > 0 ==> extends_last(old(self).path@, final(self).path@),
            old(self).path@.len() > 0 && (pt_eq_spec(
                old(self).command_x,
                old(self).command_y,
                x1,
                y1,
                old(self).dist_tol,
            ) || pt_eq_spec(x1, y1, x2, y2, old(self).dist_tol) || radius < old(self).dist_tol)
                ==> final(self).path@ =~= crate::path::updated_last(
                old(self).path@,
                SubModel {
                    pts: old(self).path@.last().pts.push(
                        tf_spec(old(self).state.xform@, x1, y1),
                    ),
                    closed: old(self).path@.last().closed,
                    winding: old(self).path@.last().winding,
                },
            ) && final(self).command_x == x1 && final(self).command_y == y1,
            old(self).path@.len() > 0 && !(pt_eq_spec(
                old(self).command_x,
                old(self).command_y,
                x1,
                y1,
                old(self).dist_tol,
            ) || pt_eq_spec(x1, y1, x2, y2, old(self).dist_tol) || radius < old(self).dist_tol)
                ==> ({
                let x0 = old(self).command_x;
                let y0 = old(self).command_y;
                let dx0 = fxi_div(crate::path::fxi_sub(x0, x1), fxi_len(
                    crate::path::fxi_sub(x0, x1),
                    crate::path::fxi_sub(y0, y1),
                ));
                let dy0 = fxi_div(crate::path::fxi_sub(y0, y1), fxi_len(
                    crate::path::fxi_sub(x0, x1),
                    crate::path::fxi_sub(y0, y1),
                ));
                let dx1 = fxi_div(crate::path::fxi_sub(x2, x1), fxi_len(
                    crate::path::fxi_sub(x2, x1),
                    crate::path::fxi_sub(y2, y1),
                ));
                let dy1 = fxi_div(crate::path::fxi_sub(y2, y1), fxi_len(
                    crate::path::fxi_sub(x2, x1),
                    crate::path::fxi_sub(y2, y1),
                ));
                let cosa = crate::path::fxi_add(crate::path::fxi_mul(dx0, dx1), crate::path::fxi_mul(dy0, dy1));
                let d = crate::path::fxi_mul(
                    radius,
                    fxi_sqrt(fxi_div(
                        crate::path::fxi_add(FX_ONE, cosa),
                        crate::path::fxi_sub(FX_ONE, cosa),
                    )),
                );
                let cross = crate::path::fxi_sub(crate::path::fxi_mul(dx1, dy0), crate::path::fxi_mul(dx0, dy1));
                let acx = if cross > 0 {
                    crate::path::fxi_add(
                        x1,
                        crate::path::fxi_add(crate::path::fxi_mul(dx0, d), crate::path::fxi_mul(dy0, radius)),
                    )
                } else {
                    crate::path::fxi_add(
                        x1,
                        crate::path::fxi_sub(crate::path::fxi_mul(dx0, d), crate::path::fxi_mul(dy0, radius)),
                    )
                };
                let acy = if cross > 0 {
                    crate::path::fxi_add(
                        y1,
                        crate::path::fxi_sub(crate::path::fxi_mul(dy0, d), crate::path::fxi_mul(dx0, radius)),
                    )
                } else {
                    crate::path::fxi_add(
                        y1,
                        crate::path::fxi_add(crate::path::fxi_mul(dy0, d), crate::path::fxi_mul(dx0, radius)),
                    )
                };
                let aa0 = if cross > 0 {
                    fxi_atan2(dx0, fxi_neg(dy0))
                } else {
                    fxi_atan2(fxi_neg(dx0), dy0)
                };
                let aa1 = if cross > 0 {
                    fxi_atan2(fxi_neg(dx1), dy1)
                } else {
                    fxi_atan2(dx1, fxi_neg(dy1))
                };
                let wdir = if cross > 0 {
                    Winding::CW
                } else {
                    Winding::CCW
                };
                (d > 655360000 ==> final(self).path@ =~= crate::path::updated_last(
                    old(self).path@,
                    SubModel {
                        pts: old(self).path@.last().pts.push(
                            tf_spec(old(self).state.xform@, x1, y1),
                        ),
                        closed: old(self).path@.last().closed,
                        winding: old(self).path@.last().winding,
                    },
                ) && final(self).command_x == x1 && final(self).command_y == y1) && (d
                    <= 655360000 ==> ({
                    let da = arc_sweep(aa0, aa1, wdir);
                    let nd = arc_divs(da);
                    let step = arc_step(da, nd);
                    final(self).command_x == arc_point_x(acx, radius, aa0, step, nd)
                        && final(self).command_y == arc_point_y(acy, radius, aa0, step, nd)
                        && final(self).path@.last().pts.last() == tf_spec(
                        old(self).state.xform@,
                        arc_point_x(acx, radius, aa0, step, nd),
                        arc_point_y(acy, radius, aa0, step, nd),
                    ) && final(self).path@.last().pts[old(self).path@.last().pts.len() as int]
                        == tf_spec(
                        old(self).state.xform@,
                        arc_start_x(acx, radius, aa0),
                        arc_start_y(acy, radius, aa0),
                    )
                }))
            }),
    {
        if self.path.is_empty() {
            return ;
        }
        let x0: Fx = self.command_x;
        let y0: Fx = self.command_y;
        let tol: Fx = self.dist_tol;
        if pt_equals(x0, y0, x1, y1, tol) || pt_equals(x1, y1, x2, y2, tol) || radius < tol {
            self.line_to(x1, y1);
            proof {
                lemma_updated_push_extends(old(self).path@, self.path@);
            }
            return ;
        }
        let d0: Fx = fx_len(fx_sub(x0, x1), fx_sub(y0, y1));
        let d1: Fx = fx_len(fx_sub(x2, x1), fx_sub(y2, y1));
        let dx0: Fx = fx_div(fx_sub(x0, x1), d0);
        let dy0: Fx = fx_div(fx_sub(y0, y1), d0);
        let dx1: Fx = fx_div(fx_sub(x2, x1), d1);
        let dy1: Fx = fx_div(fx_sub(y2, y1), d1);
        proof {
            assert(d0 == fxi_len(crate::path::fxi_sub(x0, x1), crate::path::fxi_sub(y0, y1)));
            assert(d1 == fxi_len(crate::path::fxi_sub(x2, x1), crate::path::fxi_sub(y2, y1)));
            assert(dx0 == fxi_div(crate::path::fxi_sub(x0, x1), d0));
            assert(dy0 == fxi_div(crate::path::fxi_sub(y0, y1), d0));
            assert(dx1 == fxi_div(crate::path::fxi_sub(x2, x1), d1));
            assert(dy1 == fxi_div(crate::path::fxi_sub(y2, y1), d1));
        }
        // cos of the corner angle, and the half-angle cotangent via the
        // square-root identity
        let cosa: Fx = fx_add(fx_mul(dx0, dx1), fx_mul(dy0, dy1));
        let num: Fx = fx_add(FX_ONE, cosa);
        let den: Fx = fx_sub(FX_ONE, cosa);
        let d: Fx = fx_mul(radius, crate::fixed::fx_sqrt(fx_div(num, den)));
        proof {
            assert(cosa == crate::path::fxi_add(
                crate::path::fxi_mul(dx0, dx1),
                crate::path::fxi_mul(dy0, dy1),
            ));
            assert(d == crate::path::fxi_mul(
                radius,
                fxi_sqrt(fxi_div(
                    crate::path::fxi_add(FX_ONE, cosa),
                    crate::path::fxi_sub(FX_ONE, cosa),
                )),
            ));
        }
        if d > 655360000 {
            // nearly colinear: the corner arc degenerates to a line
            self.line_to(x1, y1);
            proof {
                lemma_updated_push_extends(old(self).path@, self.path@);
            }
            return ;
        }
        let cross: Fx = fx_sub(fx_mul(dx1, dy0), fx_mul(dx0, dy1));
        proof {
            assert(cross == crate::path::fxi_sub(
                crate::path::fxi_mul(dx1, dy0),
                crate::path::fxi_mul(dx0, dy1),
            ));
        }
        if cross > 0 {
            let cx: Fx = fx_add(x1, fx_add(fx_mul(dx0, d), fx_mul(dy0, radius)));
            let cy: Fx = fx_add(y1, fx_sub(fx_mul(dy0, d), fx_mul(dx0, radius)));
            let a0: Fx = crate::fixed::fx_atan2(dx0, crate::fixed::fx_neg(dy0));
            let a1: Fx = crate::fixed::fx_atan2(crate::fixed::fx_neg(dx1), dy1);
            proof {
                assert(cx == crate::path::fxi_add(
                    x1,
                    crate::path::fxi_add(
                        crate::path::fxi_mul(dx0, d),
                        crate::path::fxi_mul(dy0, radius),
                    ),
                ));
                assert(cy == crate::path::fxi_add(
                    y1,
                    crate::path::fxi_sub(
                        crate::path::fxi_mul(dy0, d),
                        crate::path::fxi_mul(dx0, radius),
                    ),
                ));
                assert(a0 == fxi_atan2(dx0, fxi_neg(dy0)));
                assert(a1 == fxi_atan2(fxi_neg(dx1), dy1));
            }
            self.arc(cx, cy, radius, a0, a1, Winding::CW);
        } else {
            let cx: Fx = fx_add(x1, fx_sub(fx_mul(dx0, d), fx_mul(dy0, radius)));
            let cy: Fx = fx_add(y1, fx_add(fx_mul(dy0, d), fx_mul(dx0, radius)));
            let a0: Fx = crate::fixed::fx_atan2(crate::fixed::fx_neg(dx0), dy0);
            let a1: Fx = crate::fixed::fx_atan2(dx1, crate::fixed::fx_neg(dy1));
            proof {
                assert(cx == crate::path::fxi_add(
                    x1,
                    crate::path::fxi_sub(
                        crate::path::fxi_mul(dx0, d),
                        crate::path::fxi_mul(dy0, radius),
                    ),
                ));
                assert(cy == crate::path::fxi_add(
                    y1,
                    crate::path::fxi_add(
                        crate::path::fxi_mul(dy0, d),
                        crate::path::fxi_mul(dx0, radius),
                    ),
                ));
                assert(a0 == fxi_atan2(fxi_neg(dx0), dy0));
                assert(a1 == fxi_atan2(dx1, fxi_neg(dy1)));
            }
            self.arc(cx, cy, radius, a0, a1, Winding::CCW);
        }
    }

    /// Fills the current path with the current fill paint: emits exactly
    /// one draw request carrying a copy of the geometry, the paint with its
    /// transform composed with the live global transform, the composite
    /// state, the scissor and the global alpha. An empty path emits
    /// nothing.
    pub fn fill(&mut self)
        requires
            ctx_wf(*old(self)),
        ensures
            ctx_wf(*final(self)),
            old(self).path@.len() == 0 ==> *final(self) == *old(self),
            old(self).path@.len() > 0 ==> *final(self) == (Context {
                requests: final(self).requests,
                ..*old(self)
            }) && final(self).requests@.len() == old(self).requests@.len() + 1
                && final(self).requests@.drop_last() =~= old(self).requests@ && emitted_request(
                final(self).requests@.last(),
                DrawKind::Fill,
                old(self).path@,
                old(self).state,
                old(self).state.fill,
                old(self).state.stroke_width,
            ),
    {
        if !self.path.is_empty() {
            let geometry: Vec<Subpath> = copy_geometry(&self.path);
            let mut rp: Paint = self.state.fill;
            let mut xf: Transform = rp.xform;
            xf.set_multiply(&self.state.xform);
            rp.xform = xf;
            let req = DrawRequest {
                kind: DrawKind::Fill,
                geometry,
                paint: rp,
                composite: self.state.composite_operation,
                scissor: self.state.scissor,
                alpha: self.state.alpha,
                stroke_width: self.state.stroke_width,
            };
            self.requests.push(req);
            proof {
                assert(self.requests@.drop_last() =~= old(self).requests@);
            }
        }
    }

    /// Strokes the current path with the current stroke paint: emits
    /// exactly one draw request like [`Context::fill`], carrying the stroke
    /// width scaled by the transform's average scale and clamped to the
    /// supported range.
    pub fn stroke(&mut self)
        requires
            ctx_wf(*old(self)),
        ensures
            ctx_wf(*final(self)),
            old(self).path@.len() == 0 ==> *final(self) == *old(self),
            old(self).path@.len() > 0 ==> *final(self) == (Context {
                requests: final(self).requests,
                ..*old(self)
            }) && final(self).requests@.len() == old(self).requests@.len() + 1
                && final(self).requests@.drop_last() =~= old(self).requests@ && emitted_request(
                final(self).requests@.last(),
                DrawKind::Stroke,
                old(self).path@,
                old(self).state,
                old(self).state.stroke,
                device_stroke_width(old(self).state),
            ),
    {
        if !self.path.is_empty() {
            let geometry: Vec<Subpath> = copy_geometry(&self.path);
            let mut rp: Paint = self.state.stroke;
            let mut xf: Transform = rp.xform;
            xf.set_multiply(&self.state.xform);
            rp.xform = xf;
            let sx: Fx = fx_len(self.state.xform.m[0], self.state.xform.m[2]);
            let sy: Fx = fx_len(self.state.xform.m[1], self.state.xform.m[3]);
            let avg: Fx = fx_half(fx_add(sx, sy));
            let width: Fx = fx_clamp(fx_mul(self.state.stroke_width, avg), 0, 13107200);
            let req = DrawRequest {
                kind: DrawKind::Stroke,
                geometry,
                paint: rp,
                composite: self.state.composite_operation,
                scissor: self.state.scissor,
                alpha: self.state.alpha,
                stroke_width: width,
            };
            self.requests.push(req);
            proof {
                assert(self.requests@.drop_last() =~= old(self).requests@);
            }
        }
    }

    /// Sets the scissor rectangle: the given axis-aligned rectangle, made
    /// non-negative, carried with the current transform.
    pub fn scissor(&mut self, x: Fx, y: Fx, w: Fx, h: Fx)
        ensures
            final(self).state == (RenderState {
                scissor: final(self).state.scissor,
                ..old(self).state
            }),
            *final(self) == (Context { state: final(self).state, ..*old(self) }),
            scissor_set(
                final(self).state.scissor,
                old(self).state.xform@,
                x as int,
                y as int,
                w as int,
                h as int,
            ),
    {
        let w2: Fx = fx_max(0, w);
        let h2: Fx = fx_max(0, h);
        let mut t = Transform::identity();
        t.set_translate(fx_add(x, fx_half(w2)), fx_add(y, fx_half(h2)));
        t.set_multiply(&self.state.xform);
        self.state.scissor = Some(Scissor { xform: t, extent: [fx_half(w2), fx_half(h2)] });
    }

    /// Intersects the current scissor rectangle with the given rectangle:
    /// the current scissor is projected into the current transform's frame,
    /// intersected there, and the result set as the new scissor. The result
    /// is always one rectangle in that frame — a documented approximation,
    /// not an exact boolean intersection. With no scissor set, or when the
    /// current transform cannot be inverted, this reduces to setting the
    /// given rectangle (the intersection step is skipped).
    pub fn intersect_scissor(&mut self, x: Fx, y: Fx, w: Fx, h: Fx)
        ensures
            final(self).state == (RenderState {
                scissor: final(self).state.scissor,
                ..old(self).state
            }),
            *final(self) == (Context { state: final(self).state, ..*old(self) }),
            final(self).state.scissor is Some,
            old(self).state.scissor is None || !crate::math::is_invertible(
                old(self).state.xform@,
            ) ==> scissor_set(
                final(self).state.scissor,
                old(self).state.xform@,
                x as int,
                y as int,
                w as int,
                h as int,
            ),
            old(self).state.scissor matches Some(sc) ==> (crate::math::is_invertible(
                old(self).state.xform@,
            ) ==> ({
                let r = isect_rect(
                    sc,
                    old(self).state.xform@,
                    x as int,
                    y as int,
                    w as int,
                    h as int,
                );
                scissor_set(final(self).state.scissor, old(self).state.xform@, r.0, r.1, r.2, r.3)
            })),
    {
        let cur: Option<Scissor> = self.state.scissor;
        match cur {
            None => {
                self.scissor(x, y, w, h);
            },
            Some(sc) => {
                match self.state.xform.invert() {
                    None => {
                        // degenerate transform: skip the intersection step
                        self.scissor(x, y, w, h);
                    },
                    Some(inv) => {
                        let ex: Fx = sc.extent[0];
                        let ey: Fx = sc.extent[1];
                        let mut px: Transform = sc.xform;
                        px.set_multiply(&inv);
                        let tex: Fx = fx_add(
                            fx_mul(ex, crate::fixed::fx_abs(px.m[0])),
                            fx_mul(ey, crate::fixed::fx_abs(px.m[2])),
                        );
                        let tey: Fx = fx_add(
                            fx_mul(ex, crate::fixed::fx_abs(px.m[1])),
                            fx_mul(ey, crate::fixed::fx_abs(px.m[3])),
                        );
                        let ax: Fx = fx_sub(px.m[4], tex);
                        let ay: Fx = fx_sub(px.m[5], tey);
                        let minx: Fx = fx_max(ax, x);
                        let miny: Fx = fx_max(ay, y);
                        let maxx: Fx = crate::fixed::fx_min(
                            fx_add(ax, fx_add(tex, tex)),
                            fx_add(x, w),
                        );
                        let maxy: Fx = crate::fixed::fx_min(
                            fx_add(ay, fx_add(tey, tey)),
                            fx_add(y, h),
                        );
                        let iw: Fx = fx_max(0, fx_sub(maxx, minx));
                        let ih: Fx = fx_max(0, fx_sub(maxy, miny));
                        self.scissor(minx, miny, iw, ih);
                    },
                }
            },
        }
    }

    /// Resets and disables scissoring.
    pub fn reset_scissor(&mut self)
        ensures
            final(self).state == (RenderState { scissor: None, ..old(self).state }),
            *final(self) == (Context { state: final(self).state, ..*old(self) }),
    {
        self.state.scissor = None;
    }

    /// Registers an image of the given size with the context and returns
    /// its handle. The pixel data itself belongs to the image-store
    /// collaborator; this core only tracks handles and sizes.
    pub fn create_image_rgba(&mut self, w: i64, h: i64, image_flags: u32, data: &[u8]) -> (r:
        isize)
        requires
            old(self).images@.len() < 0x7fff_ffff,
        ensures
            final(self).images@ =~= old(self).images@.push(Some((w, h))),
            r == old(self).images@.len() + 1,
            *final(self) == (Context { images: final(self).images, ..*old(self) }),
    {
        let handle: usize = self.images.len() + 1;
        self.images.push(Some((w, h)));
        handle as isize
    }

    /// The size of a registered image, or `None` for an unknown or deleted
    /// handle.
    pub fn image_size(&self, image: isize) -> (r: Option<(i64, i64)>)
        ensures
            r == if 1 <= image && image <= self.images@.len() {
                self.images@[image - 1]
            } else {
                Option::<(i64, i64)>::None
            },
    {
        if image >= 1 && (image as usize) <= self.images.len() {
            self.images[(image as usize) - 1]
        } else {
            None
        }
    }

    /// Acknowledges new pixel data for a registered image and reports
    /// whether the handle is live. The pixel bytes themselves go to the
    /// image-store collaborator; this core only validates the handle.
    pub fn update_image(&self, image: isize, data: &[u8]) -> (r: bool)
        ensures
            r == (1 <= image && image <= self.images@.len() && self.images@[image - 1] is Some),
    {
        if image >= 1 && (image as usize) <= self.images.len() {
            self.images[(image as usize) - 1].is_some()
        } else {
            false
        }
    }

    /// Deletes a registered image; an unknown handle is ignored.
    pub fn delete_image(&mut self, image: isize)
        ensures
            1 <= image && image <= old(self).images@.len() ==> final(self).images@
                =~= old(self).images@.update(image - 1, Option::<(i64, i64)>::None),
            !(1 <= image && image <= old(self).images@.len()) ==> *final(self) == *old(self),
            *final(self) == (Context { images: final(self).images, ..*old(self) }),
    {
        if image >= 1 && (image as usize) <= self.images.len() {
            self.images.set((image as usize) - 1, None);
        }
    }

    /// Returns a copy of the current transform.
    pub fn current_transform(&self) -> (r: Transform)
        ensures
            r@ == self.state.xform@,
    {
        self.state.xform
    }
}


/// The device-space image of a user-space point under a transform model,
/// as a pair of fixed-point scalars.
pub open spec fn tf_spec(m: Mat, x: Fx, y: Fx) -> (Fx, Fx) {
    (apply_x(m, x as int, y as int) as i64, apply_y(m, x as int, y as int) as i64)
}

/// The subpath a plain rectangle emits: its four transformed corners in
/// counter-clockwise order, closed.
pub open spec fn rect_submodel(m: Mat, x: Fx, y: Fx, w: Fx, h: Fx) -> SubModel {
    SubModel {
        pts: seq![
            tf_spec(m, x, y),
            tf_spec(m, x, fx_add_spec(y as int, h as int) as i64),
            tf_spec(
                m,
                fx_add_spec(x as int, w as int) as i64,
                fx_add_spec(y as int, h as int) as i64,
            ),
            tf_spec(m, fx_add_spec(x as int, w as int) as i64, y),
        ],
        closed: true,
        winding: Winding::CCW,
    }
}

/// One coordinate of elevating a quadratic control point to cubic form:
/// `p + 2/3 * (c - p)`, with two thirds at fixed-point scale.
pub open spec fn elevate(p: Fx, c: Fx) -> Fx {
    fx_add_spec(p as int, fx_mul_spec(43691, fx_sub_spec(c as int, p as int))) as i64
}

/// Whether two contexts differ at most in the current path and the
/// user-space path position.
pub open spec fn only_path_changed(a: Context, b: Context) -> bool {
    b == (Context { path: b.path, command_x: b.command_x, command_y: b.command_y, ..a })
}

/// A flattening step preserves path well-formedness.
proof fn lemma_appended_wf(before: Seq<SubModel>, after: Seq<SubModel>)
    requires
        path_wf(before),
        exists|p: (Fx, Fx)| crate::path::appended_to_last(before, after, p),
    ensures
        path_wf(after),
{
    let p = choose|p: (Fx, Fx)| crate::path::appended_to_last(before, after, p);
    assert forall|i: int| 0 <= i < after.len() implies #[trigger] after[i].pts.len() >= 1 by {
        if i < before.len() - 1 {
            assert(after[i] == before[i]);
        }
    }
}


/// What `fill` and `stroke` promise of the one request they emit: the
/// geometry equals the current path, the paint is the state's paint with
/// its local transform composed with the live global transform (resolved at
/// emission time, not at paint construction), and the composite state,
/// scissor and alpha are carried over.
pub open spec fn emitted_request(
    req: DrawRequest,
    kind: DrawKind,
    geometry: Seq<SubModel>,
    state: RenderState,
    paint: Paint,
    stroke_width: Fx,
) -> bool {
    &&& req.kind == kind
    &&& path_model(req.geometry@) =~= geometry
    &&& req.paint.kind == paint.kind
    &&& req.paint.xform@ == mul_mat(state.xform@, paint.xform@)
    &&& req.paint.extent == paint.extent
    &&& req.paint.radius == paint.radius
    &&& req.paint.feather == paint.feather
    &&& req.paint.inner_color == paint.inner_color
    &&& req.paint.outer_color == paint.outer_color
    &&& req.paint.image == paint.image
    &&& req.composite == state.composite_operation
    &&& req.scissor == state.scissor
    &&& req.alpha == state.alpha
    &&& req.stroke_width == stroke_width
}

/// The stroke width a stroke request carries: the state's stroke width
/// scaled by the transform's average scale factor, clamped into `[0, 200]`.
pub open spec fn device_stroke_width(state: RenderState) -> Fx {
    let avg = fx_half_spec(
        fx_add_spec(
            crate::fixed::fx_len_spec(state.xform@.a, state.xform@.c),
            crate::fixed::fx_len_spec(state.xform@.b, state.xform@.d),
        ),
    );
    let scaled = fx_mul_spec(state.stroke_width as int, avg);
    if scaled < 0 {
        0i64
    } else if scaled > 13107200 {
        13107200i64
    } else {
        scaled as i64
    }
}

/// What `scissor` promises: the new scissor carries the given rectangle,
/// made non-negative, centered in its own frame, composed with the
/// transform that was current when it was set.
pub open spec fn scissor_set(
    sc: Option<Scissor>,
    xform: Mat,
    x: int,
    y: int,
    w: int,
    h: int,
) -> bool {
    let w2 = if w >= 0 {
        w
    } else {
        0
    };
    let h2 = if h >= 0 {
        h
    } else {
        0
    };
    sc matches Some(s) && s.xform@ == mul_mat(
        xform,
        Mat {
            a: FX_ONE as int,
            b: 0,
            c: 0,
            d: FX_ONE as int,
            e: fx_add_spec(x, fx_half_spec(w2)),
            f: fx_add_spec(y, fx_half_spec(h2)),
        },
    ) && s.extent[0] as int == fx_half_spec(w2) && s.extent[1] as int == fx_half_spec(h2)
}

/// The rectangle `intersect_scissor` reduces to when a scissor is already
/// set and the current transform inverts: the old scissor is projected
/// into the current transform's frame as an axis-aligned bound, and the
/// two rectangles are intersected there.
pub open spec fn isect_rect(sc: Scissor, xform: Mat, x: int, y: int, w: int, h: int) -> (
    int,
    int,
    int,
    int,
) {
    let p = mul_mat(crate::math::inv_mat(xform), sc.xform@);
    let tex = fx_add_spec(
        fx_mul_spec(sc.extent[0] as int, fx_clip_abs(p.a)),
        fx_mul_spec(sc.extent[1] as int, fx_clip_abs(p.c)),
    );
    let tey = fx_add_spec(
        fx_mul_spec(sc.extent[0] as int, fx_clip_abs(p.b)),
        fx_mul_spec(sc.extent[1] as int, fx_clip_abs(p.d)),
    );
    let ax = fx_sub_spec(p.e, tex);
    let ay = fx_sub_spec(p.f, tey);
    let minx = if ax >= x {
        ax
    } else {
        x
    };
    let miny = if ay >= y {
        ay
    } else {
        y
    };
    let bx = fx_add_spec(ax, fx_add_spec(tex, tex));
    let by = fx_add_spec(ay, fx_add_spec(tey, tey));
    let xw = fx_add_spec(x, w);
    let yh = fx_add_spec(y, h);
    let maxx = if bx <= xw {
        bx
    } else {
        xw
    };
    let maxy = if by <= yh {
        by
    } else {
        yh
    };
    let iw = if 0 >= fx_sub_spec(maxx, minx) {
        0
    } else {
        fx_sub_spec(maxx, minx)
    };
    let ih = if 0 >= fx_sub_spec(maxy, miny) {
        0
    } else {
        fx_sub_spec(maxy, miny)
    };
    (minx, miny, iw, ih)
}

/// The saturated magnitude of a model scalar.
pub open spec fn fx_clip_abs(v: int) -> int {
    crate::fixed::fx_clip(crate::fixed::abs_i(v))
}


/// Copies one subpath's points.
fn copy_points(v: &Vec<(Fx, Fx)>) -> (r: Vec<(Fx, Fx)>)
    ensures
        r@ =~= v@,
{
    let mut r: Vec<(Fx, Fx)> = Vec::new();
    let mut i: usize = 0;
    while i < v.len()
        invariant
            i <= v.len(),
            r@ =~= v@.subrange(0, i as int),
        decreases v.len() - i,
    {
        r.push(v[i]);
        i = i + 1;
    }
    r
}

/// Copies the whole path's geometry for a draw request.
fn copy_geometry(p: &Path) -> (r: Vec<Subpath>)
    ensures
        path_model(r@) =~= p@,
{
    let mut r: Vec<Subpath> = Vec::new();
    let mut i: usize = 0;
    while i < p.subs.len()
        invariant
            i <= p.subs.len(),
            r@.len() == i,
            forall|j: int| 0 <= j < i ==> #[trigger] r@[j]@ == p@[j],
        decreases p.subs.len() - i,
    {
        let src: &Subpath = &p.subs[i];
        let sub = Subpath { pts: copy_points(&src.pts), closed: src.closed, winding: src.winding };
        let ghost rpre = r@;
        r.push(sub);
        proof {
            assert(sub@ =~~= p@[i as int]);
            assert(forall|j: int| 0 <= j < rpre.len() ==> r@[j] == #[trigger] rpre[j]);
        }
        i = i + 1;
    }
    proof {
        assert forall|j: int| 0 <= j < p@.len() implies #[trigger] path_model(r@)[j] == p@[j] by {
            assert(path_model(r@)[j] == r@[j]@);
        }
    }
    r
}


/// A new closed subpath was appended: the earlier subpaths are untouched
/// and the path grew by exactly one closed, non-empty subpath.
pub open spec fn added_subpath(before: Seq<SubModel>, after: Seq<SubModel>) -> bool {
    &&& after.len() == before.len() + 1
    &&& forall|i: int| 0 <= i < before.len() ==> after[i] == #[trigger] before[i]
    &&& after.last().pts.len() >= 1
    &&& after.last().closed
}

/// The last subpath was possibly extended with more points: the earlier
/// subpaths are untouched and the last keeps its flag, tag and existing
/// points.
pub open spec fn extends_last(before: Seq<SubModel>, after: Seq<SubModel>) -> bool {
    &&& before.len() > 0
    &&& after.len() == before.len()
    &&& forall|i: int| 0 <= i < before.len() - 1 ==> after[i] == #[trigger] before[i]
    &&& after.last().closed == before.last().closed
    &&& after.last().winding == before.last().winding
    &&& after.last().pts.len() >= before.last().pts.len()
    &&& after.last().pts.subrange(0, before.last().pts.len() as int) =~= before.last().pts
}

/// Appending one point to the last subpath extends it.
proof fn lemma_push_extends(before: Seq<SubModel>, after: Seq<SubModel>, q: (Fx, Fx))
    requires
        before.len() > 0,
        after =~= crate::path::updated_last(
            before,
            SubModel {
                pts: before.last().pts.push(q),
                closed: before.last().closed,
                winding: before.last().winding,
            },
        ),
    ensures
        extends_last(before, after),
        path_wf(before) ==> path_wf(after),
{
    assert(after.last().pts.subrange(0, before.last().pts.len() as int) =~= before.last().pts);
    if path_wf(before) {
        assert forall|i: int| 0 <= i < after.len() implies #[trigger] after[i].pts.len() >= 1 by {
            if i < before.len() - 1 {
                assert(after[i] == before[i]);
            }
        }
    }
}

/// A line command on a non-empty path extends its last subpath.
proof fn lemma_updated_push_extends(before: Seq<SubModel>, after: Seq<SubModel>)
    requires
        before.len() > 0,
        exists|q: (Fx, Fx)|
            after =~= crate::path::updated_last(
                before,
                SubModel {
                    pts: before.last().pts.push(q),
                    closed: before.last().closed,
                    winding: before.last().winding,
                },
            ),
    ensures
        extends_last(before, after),
{
    let q = choose|q: (Fx, Fx)|
        after =~= crate::path::updated_last(
            before,
            SubModel {
                pts: before.last().pts.push(q),
                closed: before.last().closed,
                winding: before.last().winding,
            },
        );
    lemma_push_extends(before, after, q);
}

/// A flattening step extends the last subpath.
proof fn lemma_appended_extends(before: Seq<SubModel>, after: Seq<SubModel>)
    requires
        exists|q: (Fx, Fx)| crate::path::appended_to_last(before, after, q),
    ensures
        extends_last(before, after),
{
    let q = choose|q: (Fx, Fx)| crate::path::appended_to_last(before, after, q);
}

/// Extension steps compose.
proof fn lemma_extends_trans(before: Seq<SubModel>, mid: Seq<SubModel>, after: Seq<SubModel>)
    requires
        extends_last(before, mid),
        extends_last(mid, after),
    ensures
        extends_last(before, after),
{
    assert(after.last().pts.subrange(0, before.last().pts.len() as int) =~= before.last().pts)
        by {
        assert(forall|j: int|
            0 <= j < mid.last().pts.len() ==> after.last().pts[j] == #[trigger] mid.last().pts[j]);
        assert(forall|j: int|
            0 <= j < before.last().pts.len() ==> mid.last().pts[j] == #[trigger] before.last(
            ).pts[j]);
    };
}

/// Whether two points coincide within the distance tolerance: their
/// squared distance is below the squared tolerance.
pub open spec fn pt_eq_spec(x1: Fx, y1: Fx, x2: Fx, y2: Fx, tol: Fx) -> bool {
    fx_add_spec(
        fx_mul_spec(fx_sub_spec(x2 as int, x1 as int), fx_sub_spec(x2 as int, x1 as int)),
        fx_mul_spec(fx_sub_spec(y2 as int, y1 as int), fx_sub_spec(y2 as int, y1 as int)),
    ) < fx_mul_spec(tol as int, tol as int)
}

/// Whether two points coincide within the distance tolerance.
fn pt_equals(x1: Fx, y1: Fx, x2: Fx, y2: Fx, tol: Fx) -> (r: bool)
    ensures
        r == pt_eq_spec(x1, y1, x2, y2, tol),
{
    let dx: Fx = fx_sub(x2, x1);
    let dy: Fx = fx_sub(y2, y1);
    fx_add(fx_mul(dx, dx), fx_mul(dy, dy)) < fx_mul(tol, tol)
}

/// Applies the sign of `s` to the magnitude-selected value `v`.
fn with_sign(v: Fx, s: Fx) -> (r: Fx)
    ensures
        r as int == if s as int >= 0 {
            v as int
        } else {
            crate::fixed::fx_clip(-(v as int))
        },
{
    if s >= 0 {
        v
    } else {
        crate::fixed::fx_neg(v)
    }
}


/// Fixed-point division at the representation level.
pub open spec fn fxi_div(a: Fx, b: Fx) -> Fx {
    crate::fixed::fx_div_spec(a as int, b as int) as i64
}

/// Euclidean vector length at the representation level.
pub open spec fn fxi_len(a: Fx, b: Fx) -> Fx {
    crate::fixed::fx_len_spec(a as int, b as int) as i64
}

/// Fixed-point square root at the representation level.
pub open spec fn fxi_sqrt(a: Fx) -> Fx {
    crate::fixed::fx_sqrt_spec(a as int) as i64
}

/// Saturating negation at the representation level.
pub open spec fn fxi_neg(a: Fx) -> Fx {
    crate::fixed::fx_clip(-(a as int)) as i64
}

/// Two-argument arctangent at the representation level.
pub open spec fn fxi_atan2(y: Fx, x: Fx) -> Fx {
    crate::fixed::fx_atan2_spec(y as int, x as int) as i64
}

/// The normalized, clamped sweep of an arc from `a0` to `a1` in the given
/// direction: positive (up to a full turn) for clockwise sweeps, negative
/// for counter-clockwise ones.
pub open spec fn arc_sweep(a0: Fx, a1: Fx, dir: Winding) -> Fx {
    let diff = crate::path::fxi_sub(a1, a0);
    let raw = match dir {
        Winding::CW => if crate::path::fxi_abs(diff) >= crate::fixed::FX_TAU {
            crate::fixed::FX_TAU
        } else {
            ((diff as int) % (crate::fixed::FX_TAU as int)) as i64
        },
        Winding::CCW => if crate::path::fxi_abs(diff) >= crate::fixed::FX_TAU {
            (-(crate::fixed::FX_TAU as int)) as i64
        } else if diff > 0 {
            crate::path::fxi_sub(diff, crate::fixed::FX_TAU)
        } else {
            diff
        },
    };
    if raw < -crate::fixed::FX_TAU {
        (-(crate::fixed::FX_TAU as int)) as i64
    } else if raw > crate::fixed::FX_TAU {
        crate::fixed::FX_TAU
    } else {
        raw
    }
}

/// How many Bezier segments an arc sweep uses: one per quarter turn,
/// rounded, at least one and at most five.
pub open spec fn arc_divs(da: Fx) -> int {
    let mag = crate::path::fxi_abs(da);
    let raw = ((mag + 51472) as int) / 102944;
    if raw < 1 {
        1
    } else if raw > 5 {
        5
    } else {
        raw
    }
}

/// The signed per-segment angle step of an arc sweep.
pub open spec fn arc_step(da: Fx, nd: int) -> Fx {
    if da >= 0 {
        ((da as int) / nd) as i64
    } else {
        (-(((-da) as int) / nd)) as i64
    }
}

/// The angle of the arc point after `i` steps.
pub open spec fn arc_angle(a0: Fx, step: Fx, i: int) -> Fx {
    let s = (step as int) * i;
    let sc: int = if s < -2058875 {
        -2058875
    } else if s > 2058875 {
        2058875
    } else {
        s
    };
    crate::path::fxi_add(a0, sc as i64)
}

/// The x-coordinate of the arc point after `i` steps, in user space.
pub open spec fn arc_point_x(cx: Fx, r: Fx, a0: Fx, step: Fx, i: int) -> Fx {
    fx_add_spec(
        cx as int,
        fx_mul_spec(crate::fixed::fx_cos_spec(arc_angle(a0, step, i) as int), r as int),
    ) as i64
}

/// The y-coordinate of the arc point after `i` steps, in user space.
pub open spec fn arc_point_y(cy: Fx, r: Fx, a0: Fx, step: Fx, i: int) -> Fx {
    fx_add_spec(
        cy as int,
        fx_mul_spec(crate::fixed::fx_sin_spec(arc_angle(a0, step, i) as int), r as int),
    ) as i64
}

/// The x-coordinate of the point where an arc sweep begins.
pub open spec fn arc_start_x(cx: Fx, r: Fx, a0: Fx) -> Fx {
    fx_add_spec(
        cx as int,
        fx_mul_spec(crate::fixed::fx_cos_spec(crate::fixed::fx_clip(a0 as int)), r as int),
    ) as i64
}

/// The y-coordinate of the point where an arc sweep begins.
pub open spec fn arc_start_y(cy: Fx, r: Fx, a0: Fx) -> Fx {
    fx_add_spec(
        cy as int,
        fx_mul_spec(crate::fixed::fx_sin_spec(crate::fixed::fx_clip(a0 as int)), r as int),
    ) as i64
}

/// The first quarter-arc run of an ellipse, from the left cardinal point
/// down to the bottom cardinal point.
pub open spec fn ell_run1(m: Mat, cx: Fx, cy: Fx, rx: Fx, ry: Fx, tol: Fx) -> Seq<(Fx, Fx)> {
    let kx = crate::path::fxi_mul(rx, 36195);
    let ky = crate::path::fxi_mul(ry, 36195);
    let left = crate::path::fxi_sub(cx, rx);
    let bottom = crate::path::fxi_add(cy, ry);
    let p0 = tf_spec(m, left, cy);
    crate::path::tess_spec(
        p0.0,
        p0.1,
        tf_spec(m, left, crate::path::fxi_add(cy, ky)).0,
        tf_spec(m, left, crate::path::fxi_add(cy, ky)).1,
        tf_spec(m, crate::path::fxi_sub(cx, kx), bottom).0,
        tf_spec(m, crate::path::fxi_sub(cx, kx), bottom).1,
        tf_spec(m, cx, bottom).0,
        tf_spec(m, cx, bottom).1,
        tol,
        0,
    )
}

/// The second quarter-arc run, from the bottom to the right cardinal
/// point.
pub open spec fn ell_run2(m: Mat, cx: Fx, cy: Fx, rx: Fx, ry: Fx, tol: Fx) -> Seq<(Fx, Fx)> {
    let kx = crate::path::fxi_mul(rx, 36195);
    let ky = crate::path::fxi_mul(ry, 36195);
    let right = crate::path::fxi_add(cx, rx);
    let bottom = crate::path::fxi_add(cy, ry);
    let p1 = tf_spec(m, cx, bottom);
    crate::path::tess_spec(
        p1.0,
        p1.1,
        tf_spec(m, crate::path::fxi_add(cx, kx), bottom).0,
        tf_spec(m, crate::path::fxi_add(cx, kx), bottom).1,
        tf_spec(m, right, crate::path::fxi_add(cy, ky)).0,
        tf_spec(m, right, crate::path::fxi_add(cy, ky)).1,
        tf_spec(m, right, cy).0,
        tf_spec(m, right, cy).1,
        tol,
        0,
    )
}

/// The third quarter-arc run, from the right to the top cardinal point.
pub open spec fn ell_run3(m: Mat, cx: Fx, cy: Fx, rx: Fx, ry: Fx, tol: Fx) -> Seq<(Fx, Fx)> {
    let kx = crate::path::fxi_mul(rx, 36195);
    let ky = crate::path::fxi_mul(ry, 36195);
    let right = crate::path::fxi_add(cx, rx);
    let top = crate::path::fxi_sub(cy, ry);
    let p2 = tf_spec(m, right, cy);
    crate::path::tess_spec(
        p2.0,
        p2.1,
        tf_spec(m, right, crate::path::fxi_sub(cy, ky)).0,
        tf_spec(m, right, crate::path::fxi_sub(cy, ky)).1,
        tf_spec(m, crate::path::fxi_add(cx, kx), top).0,
        tf_spec(m, crate::path::fxi_add(cx, kx), top).1,
        tf_spec(m, cx, top).0,
        tf_spec(m, cx, top).1,
        tol,
        0,
    )
}

/// The fourth quarter-arc run, from the top back to the left cardinal
/// point.
pub open spec fn ell_run4(m: Mat, cx: Fx, cy: Fx, rx: Fx, ry: Fx, tol: Fx) -> Seq<(Fx, Fx)> {
    let kx = crate::path::fxi_mul(rx, 36195);
    let ky = crate::path::fxi_mul(ry, 36195);
    let left = crate::path::fxi_sub(cx, rx);
    let top = crate::path::fxi_sub(cy, ry);
    let p3 = tf_spec(m, cx, top);
    crate::path::tess_spec(
        p3.0,
        p3.1,
        tf_spec(m, crate::path::fxi_sub(cx, kx), top).0,
        tf_spec(m, crate::path::fxi_sub(cx, kx), top).1,
        tf_spec(m, left, crate::path::fxi_sub(cy, ky)).0,
        tf_spec(m, left, crate::path::fxi_sub(cy, ky)).1,
        tf_spec(m, left, cy).0,
        tf_spec(m, left, cy).1,
        tol,
        0,
    )
}

/// Halving at the representation level.
pub open spec fn fxi_half(a: Fx) -> Fx {
    fx_half_spec(a as int) as i64
}

/// The smaller of two scalars, at the representation level.
pub open spec fn fxi_min(a: Fx, b: Fx) -> Fx {
    if a <= b {
        a
    } else {
        b
    }
}

/// The magnitude-selected value `v` carrying the sign of `s`.
pub open spec fn fxi_sign(v: Fx, s: Fx) -> Fx {
    if s >= 0 {
        v
    } else {
        crate::fixed::fx_clip(-(v as int)) as i64
    }
}

/// One corner radius of a rounded rectangle: the requested radius clamped
/// to the half-extent, carrying the sign of the side it runs along.
pub open spec fn rr_radius(rad: Fx, half: Fx, side: Fx) -> Fx {
    fxi_sign(fxi_min(rad, half), side)
}

/// The exact polyline of a rounded-rectangle subpath with the given
/// (already clamped, signed) corner radii: the four straight edges joined
/// by four flattened Bezier corner arcs, starting below the top-left
/// corner and running through bottom-left, bottom-right and top-right.
pub open spec fn rrect_pts(
    m: Mat,
    x: Fx,
    y: Fx,
    w: Fx,
    h: Fx,
    rx_tl: Fx,
    ry_tl: Fx,
    rx_tr: Fx,
    ry_tr: Fx,
    rx_br: Fx,
    ry_br: Fx,
    rx_bl: Fx,
    ry_bl: Fx,
    tol: Fx,
) -> Seq<(Fx, Fx)> {
    let xw = crate::path::fxi_add(x, w);
    let yh = crate::path::fxi_add(y, h);
    let p0 = tf_spec(m, x, crate::path::fxi_add(y, ry_tl));
    let q1 = tf_spec(m, x, crate::path::fxi_sub(yh, ry_bl));
    let e1 = tf_spec(m, crate::path::fxi_add(x, rx_bl), yh);
    let run1 = crate::path::tess_spec(
        q1.0,
        q1.1,
        tf_spec(m, x, crate::path::fxi_sub(yh, crate::path::fxi_mul(ry_bl, 29341))).0,
        tf_spec(m, x, crate::path::fxi_sub(yh, crate::path::fxi_mul(ry_bl, 29341))).1,
        tf_spec(m, crate::path::fxi_add(x, crate::path::fxi_mul(rx_bl, 29341)), yh).0,
        tf_spec(m, crate::path::fxi_add(x, crate::path::fxi_mul(rx_bl, 29341)), yh).1,
        e1.0,
        e1.1,
        tol,
        0,
    );
    let q2 = tf_spec(m, crate::path::fxi_sub(xw, rx_br), yh);
    let e2 = tf_spec(m, xw, crate::path::fxi_sub(yh, ry_br));
    let run2 = crate::path::tess_spec(
        q2.0,
        q2.1,
        tf_spec(m, crate::path::fxi_sub(xw, crate::path::fxi_mul(rx_br, 29341)), yh).0,
        tf_spec(m, crate::path::fxi_sub(xw, crate::path::fxi_mul(rx_br, 29341)), yh).1,
        tf_spec(m, xw, crate::path::fxi_sub(yh, crate::path::fxi_mul(ry_br, 29341))).0,
        tf_spec(m, xw, crate::path::fxi_sub(yh, crate::path::fxi_mul(ry_br, 29341))).1,
        e2.0,
        e2.1,
        tol,
        0,
    );
    let q3 = tf_spec(m, xw, crate::path::fxi_add(y, ry_tr));
    let e3 = tf_spec(m, crate::path::fxi_sub(xw, rx_tr), y);
    let run3 = crate::path::tess_spec(
        q3.0,
        q3.1,
        tf_spec(m, xw, crate::path::fxi_add(y, crate::path::fxi_mul(ry_tr, 29341))).0,
        tf_spec(m, xw, crate::path::fxi_add(y, crate::path::fxi_mul(ry_tr, 29341))).1,
        tf_spec(m, crate::path::fxi_sub(xw, crate::path::fxi_mul(rx_tr, 29341)), y).0,
        tf_spec(m, crate::path::fxi_sub(xw, crate::path::fxi_mul(rx_tr, 29341)), y).1,
        e3.0,
        e3.1,
        tol,
        0,
    );
    let q4 = tf_spec(m, crate::path::fxi_add(x, rx_tl), y);
    let run4 = crate::path::tess_spec(
        q4.0,
        q4.1,
        tf_spec(m, crate::path::fxi_add(x, crate::path::fxi_mul(rx_tl, 29341)), y).0,
        tf_spec(m, crate::path::fxi_add(x, crate::path::fxi_mul(rx_tl, 29341)), y).1,
        tf_spec(m, x, crate::path::fxi_add(y, crate::path::fxi_mul(ry_tl, 29341))).0,
        tf_spec(m, x, crate::path::fxi_add(y, crate::path::fxi_mul(ry_tl, 29341))).1,
        p0.0,
        p0.1,
        tol,
        0,
    );
    seq![p0].push(q1) + run1 + seq![q2] + run2 + seq![q3] + run3 + seq![q4] + run4
}

/// The exact polyline of an ellipse subpath: the left cardinal point
/// followed by the four flattened quarter-arc runs, using the quarter
/// circle Bezier constant `0.5523`.
pub open spec fn ellipse_pts(m: Mat, cx: Fx, cy: Fx, rx: Fx, ry: Fx, tol: Fx) -> Seq<(Fx, Fx)> {
    seq![tf_spec(m, crate::path::fxi_sub(cx, rx), cy)] + ell_run1(m, cx, cy, rx, ry, tol)
        + ell_run2(m, cx, cy, rx, ry, tol) + ell_run3(m, cx, cy, rx, ry, tol) + ell_run4(
        m,
        cx,
        cy,
        rx,
        ry,
        tol,
    )
}

} // verus!
