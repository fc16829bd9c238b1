//! The GPU command vocabulary.
//!
//! The verified core never touches the GPU itself: the renderer turns a
//! batch into an exact, ordered list of [`GpuCommand`] values, and a thin
//! unverified GL backend executes them one by one.  Each variant corresponds
//! to one GL operation.

use vstd::prelude::*;

use crate::batch::TextureId;
use crate::vertex::Color;
use crate::vertex::Vertex;
use crate::view::Vec2;

verus! {

/// How an indexed draw interprets its index list.
#[derive(Clone, Copy, Debug, PartialEq, Eq, Structural)]
pub enum PrimitiveKind {
    /// Every three indices form one triangle.
    Triangles,
    /// Every two indices form one line segment.
    Lines,
    /// Every index is one point.
    Points,
}

/// One GPU operation, to be executed by the GL backend in list order.
#[derive(Clone, Debug)]
pub enum GpuCommand {
    /// Make the fixed shader program active.
    UseProgram,
    /// Upload the per-draw uniforms: the camera's translation and scale
    /// pair and the depth-layer count.
    SetUniforms { translation: Vec2, scale: Vec2, layers: u32 },
    /// Bind the texture to the active texture unit.
    BindTexture { texture: TextureId },
    /// Replace the vertex buffer contents; `capacity` is the grow-only
    /// buffer size (in vertices) the backing GPU buffer must have.
    UploadVertices { vertices: Vec<Vertex>, capacity: usize },
    /// Replace the index buffer contents; `capacity` is the grow-only
    /// buffer size (in indices) the backing GPU buffer must have.
    UploadIndices { indices: Vec<u32>, capacity: usize },
    /// Draw `count` indices starting at `first` from the uploaded index
    /// buffer.
    DrawIndices { first: usize, count: usize, primitive: PrimitiveKind },
    /// Store the color used by subsequent full clears.
    SetClearColor { color: Color },
    /// Clear the color, depth and stencil buffers.
    ClearAll,
    /// Clear only the depth buffer, to redraw onto the same color buffer in
    /// a later layer without depth-fighting.
    ClearDepth,
    /// Enable the depth test (one-time renderer construction state).
    EnableDepthTest,
    /// Enable standard alpha blending, source-alpha over one-minus-source-
    /// alpha (one-time renderer construction state).
    EnableAlphaBlend,
    /// Describe one vertex attribute: shader slot, float component count,
    /// byte stride between vertices and byte offset inside a vertex.
    ConfigureAttribute { slot: u32, components: u32, stride: u32, offset: u32 },
}

} // verus!
