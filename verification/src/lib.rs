//! Immediate-mode 2D vector-graphics core.
//!
//! A client issues state-setting and path-building calls per frame; the
//! core accumulates geometry and paint state and resolves it into draw
//! requests (filled or stroked polylines plus a resolved paint) for a
//! downstream rasterizer. The pieces are:
//!
//! - [`math::Transform`]: 2x3 affine matrix algebra (construction,
//!   composition, inversion, point mapping);
//! - [`color::Color`] and [`paint::Paint`]: color conversions and the
//!   solid/gradient/image-pattern paint model;
//! - [`path`]: subpath accumulation and curve flattening;
//! - [`state`]: the per-frame render state, its save/restore stack, and
//!   the composite-operation blend table;
//! - [`context::Context`]: the facade tying it all together.
//!
//! All scalars are fixed-point numbers ([`fixed::Fx`]): a signed 16.16
//! value held in an `i64`, so that every operation has an exact
//! integer-level contract; the raw value `v` stands for the real number
//! `v / 65536`. Font shaping, image decoding and rasterization proper are
//! external collaborators: the core hands them plain values and handles.

pub mod color;
pub mod context;
pub mod fixed;
pub mod math;
pub mod paint;
pub mod path;
pub mod state;

pub use color::Color;
pub use context::Context;
pub use context::DrawKind;
pub use context::DrawRequest;
pub use fixed::Fx;
pub use fixed::deg_to_rad;
pub use fixed::rad_to_deg;
pub use math::Transform;
pub use paint::Paint;
pub use paint::PaintKind;
pub use path::Path;
pub use path::Subpath;
pub use state::Align;
pub use state::BlendFactor;
pub use state::CompositeOperation;
pub use state::CompositeOperationState;
pub use state::GlyphPosition;
pub use state::ImageFlags;
pub use state::LineCap;
pub use state::LineJoin;
pub use state::RenderState;
pub use state::Scissor;
pub use state::Solidity;
pub use state::TextRow;
pub use state::Winding;
