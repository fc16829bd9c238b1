//! Batch-and-submit rendering core of a small 2D engine.
//!
//! Drawable shapes are appended to a [`RenderBatch`], grouped by texture and
//! kept in paint order; a [`Renderer`] consumes a batch and turns it into an
//! exact sequence of GPU commands (uniform uploads, buffer uploads, indexed
//! draws) that a thin GL backend executes.  All coordinates are exact
//! rationals, so the camera transform algebra is stated and proved exactly.

pub mod batch;
pub mod buffer;
pub mod command;
pub mod mesh;
pub mod renderer;
pub mod scalar;
pub mod vertex;
pub mod view;

pub use batch::DrawEntry;
pub use buffer::GeometryBuffer;
pub use command::GpuCommand;
pub use command::PrimitiveKind;
pub use batch::RenderBatch;
pub use batch::TextureId;
pub use mesh::Mesh;
pub use mesh::Rectangle;
pub use renderer::RenderError;
pub use renderer::Renderer;
pub use renderer::UniformLocations;
pub use renderer::UniformName;
pub use vertex::Color;
pub use vertex::Vec3;
pub use vertex::Vertex;

pub use scalar::COORD_BOUND;
pub use scalar::NDC_BOUND;
pub use scalar::Scalar;
pub use view::CenteredView;
pub use view::Vec2;
pub use view::window_to_ndc;
