//! Render state: the per-frame mutable drawing parameters, the composite
//! operation model, and the discrete style enums.
//!
//! Exactly one [`RenderState`] is current at any time; the context keeps a
//! stack of snapshots for save/restore. All fields are plain values, so a
//! snapshot is a full deep copy with no aliasing.

use vstd::prelude::*;

use crate::fixed::FX_ONE;
use crate::fixed::Fx;
use crate::math::Transform;
use crate::math::mat_identity;
use crate::paint::Paint;
use crate::paint::PaintKind;

verus! {

/// Direction of a subpath: counter-clockwise subpaths are solid, clockwise
/// subpaths are holes, under the nonzero winding fill rule.
#[derive(Clone, Copy, Debug, PartialEq, Eq, Structural)]
pub enum Winding {
    /// Winding for solid shapes.
    CCW,
    /// Winding for holes.
    CW,
}

/// Solidity of a subpath, the shape-level view of [`Winding`].
#[derive(Clone, Copy, Debug, PartialEq, Eq, Structural)]
pub enum Solidity {
    /// Counter clockwise.
    Solid,
    /// Clockwise.
    Hole,
}

/// How the end of a stroked line is drawn.
#[derive(Clone, Copy, Debug, PartialEq, Eq, Structural)]
pub enum LineCap {
    Butt,
    Round,
    Square,
}

/// How stroked path corners are drawn.
#[derive(Clone, Copy, Debug, PartialEq, Eq, Structural)]
pub enum LineJoin {
    Round,
    Bevel,
    Miter,
}

/// Text alignment flags; combine one horizontal and one vertical flag with
/// [`Align::bits`] into an alignment bitmask.
#[derive(Clone, Copy, Debug, PartialEq, Eq, Structural)]
pub enum Align {
    /// Default, align text horizontally to left.
    Left,
    /// Align text horizontally to center.
    Center,
    /// Align text horizontally to right.
    Right,
    /// Align text vertically to top.
    Top,
    /// Align text vertically to middle.
    Middle,
    /// Align text vertically to bottom.
    Bottom,
    /// Default, align text vertically to baseline.
    Baseline,
}

/// The bit each alignment flag occupies in an alignment bitmask.
pub open spec fn align_bits(a: Align) -> u32 {
    match a {
        Align::Left => 1u32,
        Align::Center => 2u32,
        Align::Right => 4u32,
        Align::Top => 8u32,
        Align::Middle => 16u32,
        Align::Bottom => 32u32,
        Align::Baseline => 64u32,
    }
}

impl Align {
    /// This flag's bit, for building alignment bitmasks.
    pub fn bits(self) -> (r: u32)
        ensures
            r == align_bits(self),
    {
        match self {
            Align::Left => 1,
            Align::Center => 2,
            Align::Right => 4,
            Align::Top => 8,
            Align::Middle => 16,
            Align::Bottom => 32,
            Align::Baseline => 64,
        }
    }
}

/// Image behavior flags; combine with [`ImageFlags::bits`] into a bitmask.
#[derive(Clone, Copy, Debug, PartialEq, Eq, Structural)]
pub enum ImageFlags {
    /// Generate mipmaps during creation of the image.
    GenerateMipmaps,
    /// Repeat image in X direction.
    Repeatx,
    /// Repeat image in Y direction.
    Repeaty,
    /// Flips (inverses) image in Y direction when rendered.
    Flipy,
    /// Image data has premultiplied alpha.
    Premultiplied,
    /// Image interpolation is Nearest instead Linear.
    Nearest,
}

/// The bit each image flag occupies in an image-flag bitmask.
pub open spec fn image_flag_bits(f: ImageFlags) -> u32 {
    match f {
        ImageFlags::GenerateMipmaps => 1u32,
        ImageFlags::Repeatx => 2u32,
        ImageFlags::Repeaty => 4u32,
        ImageFlags::Flipy => 8u32,
        ImageFlags::Premultiplied => 16u32,
        ImageFlags::Nearest => 32u32,
    }
}

impl ImageFlags {
    /// This flag's bit, for building image-flag bitmasks.
    pub fn bits(self) -> (r: u32)
        ensures
            r == image_flag_bits(self),
    {
        match self {
            ImageFlags::GenerateMipmaps => 1,
            ImageFlags::Repeatx => 2,
            ImageFlags::Repeaty => 4,
            ImageFlags::Flipy => 8,
            ImageFlags::Premultiplied => 16,
            ImageFlags::Nearest => 32,
        }
    }
}

/// One operand of a blend function, as the rasterizer understands it.
#[derive(Clone, Copy, Debug, PartialEq, Eq, Structural)]
pub enum BlendFactor {
    Zero,
    One,
    SourceColor,
    OneMinusSourceColor,
    DestinationColor,
    OneMinusDestinationColor,
    SourceAlpha,
    OneMinusSourceAlpha,
    DestinationAlpha,
    OneMinusDestinationAlpha,
    SourceAlphaSaturate,
}

/// A composite operation, modeled after the HTML canvas API; colors in the
/// blending state have premultiplied alpha.
#[derive(Clone, Copy, Debug, PartialEq, Eq, Structural)]
pub enum CompositeOperation {
    SourceOver,
    SourceIn,
    SourceOut,
    Atop,
    DestinationOver,
    DestinationIn,
    DestinationOut,
    DestinationAtop,
    Lighter,
    Copy,
    Xor,
}

/// A resolved composite operation: the blend factors handed to the
/// rasterizer, for the color and alpha components separately.
#[derive(Clone, Copy, Debug, PartialEq, Eq, Structural)]
pub struct CompositeOperationState {
    pub src_rgb: BlendFactor,
    pub dst_rgb: BlendFactor,
    pub src_alpha: BlendFactor,
    pub dst_alpha: BlendFactor,
}

/// The blend-factor pair each composite operation resolves to.
pub open spec fn composite_blend(op: CompositeOperation) -> (BlendFactor, BlendFactor) {
    match op {
        CompositeOperation::SourceOver => (BlendFactor::One, BlendFactor::OneMinusSourceAlpha),
        CompositeOperation::SourceIn => (BlendFactor::DestinationAlpha, BlendFactor::Zero),
        CompositeOperation::SourceOut => (
            BlendFactor::OneMinusDestinationAlpha,
            BlendFactor::Zero,
        ),
        CompositeOperation::Atop => (
            BlendFactor::DestinationAlpha,
            BlendFactor::OneMinusSourceAlpha,
        ),
        CompositeOperation::DestinationOver => (
            BlendFactor::OneMinusDestinationAlpha,
            BlendFactor::One,
        ),
        CompositeOperation::DestinationIn => (BlendFactor::Zero, BlendFactor::SourceAlpha),
        CompositeOperation::DestinationOut => (
            BlendFactor::Zero,
            BlendFactor::OneMinusSourceAlpha,
        ),
        CompositeOperation::DestinationAtop => (
            BlendFactor::OneMinusDestinationAlpha,
            BlendFactor::SourceAlpha,
        ),
        CompositeOperation::Lighter => (BlendFactor::One, BlendFactor::One),
        CompositeOperation::Copy => (BlendFactor::One, BlendFactor::Zero),
        CompositeOperation::Xor => (
            BlendFactor::OneMinusDestinationAlpha,
            BlendFactor::OneMinusSourceAlpha,
        ),
    }
}

impl CompositeOperationState {
    /// Resolves a composite operation into its blend factors; the color and
    /// alpha components share the same pair.
    pub fn from_operation(op: CompositeOperation) -> (r: CompositeOperationState)
        ensures
            r.src_rgb == composite_blend(op).0,
            r.dst_rgb == composite_blend(op).1,
            r.src_alpha == composite_blend(op).0,
            r.dst_alpha == composite_blend(op).1,
    {
        let (sfactor, dfactor): (BlendFactor, BlendFactor) = match op {
            CompositeOperation::SourceOver => (BlendFactor::One, BlendFactor::OneMinusSourceAlpha),
            CompositeOperation::SourceIn => (BlendFactor::DestinationAlpha, BlendFactor::Zero),
            CompositeOperation::SourceOut => (
                BlendFactor::OneMinusDestinationAlpha,
                BlendFactor::Zero,
            ),
            CompositeOperation::Atop => (
                BlendFactor::DestinationAlpha,
                BlendFactor::OneMinusSourceAlpha,
            ),
            CompositeOperation::DestinationOver => (
                BlendFactor::OneMinusDestinationAlpha,
                BlendFactor::One,
            ),
            CompositeOperation::DestinationIn => (BlendFactor::Zero, BlendFactor::SourceAlpha),
            CompositeOperation::DestinationOut => (
                BlendFactor::Zero,
                BlendFactor::OneMinusSourceAlpha,
            ),
            CompositeOperation::DestinationAtop => (
                BlendFactor::OneMinusDestinationAlpha,
                BlendFactor::SourceAlpha,
            ),
            CompositeOperation::Lighter => (BlendFactor::One, BlendFactor::One),
            CompositeOperation::Copy => (BlendFactor::One, BlendFactor::Zero),
            CompositeOperation::Xor => (
                BlendFactor::OneMinusDestinationAlpha,
                BlendFactor::OneMinusSourceAlpha,
            ),
        };
        CompositeOperationState { src_rgb: sfactor, dst_rgb: dfactor, src_alpha: sfactor, dst_alpha: dfactor }
    }

    /// A composite state from one blend-factor pair shared by color and
    /// alpha.
    pub fn from_blend_func(sfactor: BlendFactor, dfactor: BlendFactor) -> (r:
        CompositeOperationState)
        ensures
            r == (CompositeOperationState {
                src_rgb: sfactor,
                dst_rgb: dfactor,
                src_alpha: sfactor,
                dst_alpha: dfactor,
            }),
    {
        CompositeOperationState { src_rgb: sfactor, dst_rgb: dfactor, src_alpha: sfactor, dst_alpha: dfactor }
    }
}

/// The scissor region: an axis-aligned rectangle in its own frame, carried
/// by the transform that was active when it was set, with half-extents.
#[derive(Clone, Copy, Debug, PartialEq)]
pub struct Scissor {
    pub xform: Transform,
    pub extent: [Fx; 2],
}

/// The logical x-position and bounds of one glyph laid out by the font
/// collaborator.
#[derive(Clone, Copy, Debug)]
pub struct GlyphPosition<'a> {
    /// Position of the glyph in the input string.
    pub glyph: &'a str,
    /// The x-coordinate of the logical glyph position.
    pub x: Fx,
    /// The left bound of the glyph shape.
    pub minx: Fx,
    /// The right bound of the glyph shape.
    pub maxx: Fx,
}

/// One row of text broken by the font collaborator.
#[derive(Clone, Copy, Debug)]
pub struct TextRow<'a> {
    /// Text from the input string.
    pub span: &'a str,
    /// Logical width of the row.
    pub width: Fx,
    /// Left bound of the row; logical width and bounds can differ because
    /// of kerning and some parts over-extending.
    pub minx: Fx,
    /// Right bound of the row.
    pub maxx: Fx,
}

/// The full per-frame render state: everything a fill, stroke or text call
/// reads besides the path itself.
#[derive(Clone, Copy, Debug, PartialEq)]
pub struct RenderState {
    pub composite_operation: CompositeOperationState,
    pub shape_anti_alias: bool,
    pub fill: Paint,
    pub stroke: Paint,
    pub stroke_width: Fx,
    pub miter_limit: Fx,
    pub line_join: LineJoin,
    pub line_cap: LineCap,
    pub alpha: Fx,
    pub xform: Transform,
    pub scissor: Option<Scissor>,
    pub font_size: Fx,
    pub letter_spacing: Fx,
    pub line_height: Fx,
    pub font_blur: Fx,
    pub text_align: u32,
    pub font_id: isize,
}

/// What a freshly reset render state looks like: white solid fill, black
/// solid stroke, source-over compositing, identity transform, no scissor,
/// and the documented stroke and text defaults.
pub open spec fn is_default_state(s: RenderState) -> bool {
    &&& s.composite_operation == (CompositeOperationState {
        src_rgb: BlendFactor::One,
        dst_rgb: BlendFactor::OneMinusSourceAlpha,
        src_alpha: BlendFactor::One,
        dst_alpha: BlendFactor::OneMinusSourceAlpha,
    })
    &&& s.shape_anti_alias == true
    &&& s.fill.kind == PaintKind::Solid
    &&& s.fill.inner_color == (crate::color::Color { r: FX_ONE, g: FX_ONE, b: FX_ONE, a: FX_ONE })
    &&& s.fill.outer_color == (crate::color::Color { r: FX_ONE, g: FX_ONE, b: FX_ONE, a: FX_ONE })
    &&& s.fill.xform@ == mat_identity()
    &&& s.stroke.kind == PaintKind::Solid
    &&& s.stroke.inner_color == (crate::color::Color { r: 0, g: 0, b: 0, a: FX_ONE })
    &&& s.stroke.outer_color == (crate::color::Color { r: 0, g: 0, b: 0, a: FX_ONE })
    &&& s.stroke.xform@ == mat_identity()
    &&& s.stroke_width == FX_ONE
    &&& s.miter_limit == 10 * FX_ONE
    &&& s.line_join == LineJoin::Miter
    &&& s.line_cap == LineCap::Butt
    &&& s.alpha == FX_ONE
    &&& s.xform@ == mat_identity()
    &&& s.scissor is None
    &&& s.font_size == 16 * FX_ONE
    &&& s.letter_spacing == 0
    &&& s.line_height == FX_ONE
    &&& s.font_blur == 0
    &&& s.text_align == 65u32
    &&& s.font_id == 0
}

impl RenderState {
    /// A render state holding the default values.
    pub fn new_default() -> (r: RenderState)
        ensures
            is_default_state(r),
    {
        RenderState {
            composite_operation: CompositeOperationState::from_operation(
                CompositeOperation::SourceOver,
            ),
            shape_anti_alias: true,
            fill: Paint::from_color(crate::color::Color::rgbaf(FX_ONE, FX_ONE, FX_ONE, FX_ONE)),
            stroke: Paint::from_color(crate::color::Color::rgbaf(0, 0, 0, FX_ONE)),
            stroke_width: FX_ONE,
            miter_limit: 10 * FX_ONE,
            line_join: LineJoin::Miter,
            line_cap: LineCap::Butt,
            alpha: FX_ONE,
            xform: Transform::identity(),
            scissor: None,
            font_size: 16 * FX_ONE,
            letter_spacing: 0,
            line_height: FX_ONE,
            font_blur: 0,
            text_align: 65,
            font_id: 0,
        }
    }
}

} // verus!
