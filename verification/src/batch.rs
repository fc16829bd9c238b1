//! The per-frame draw set.
//!
//! A [`RenderBatch`] collects the meshes to draw in one frame, grouped by
//! the texture they use and kept in paint order: `mesh_indices` is the
//! ordered list of `(texture, mesh index)` pairs that defines draw order,
//! exactly as entries were appended — later entries draw on top.  The batch
//! also carries the active camera, the current paint color, the current
//! texture and the depth-layer counter.  It owns its meshes but never owns
//! texture lifetime: textures are named by plain non-owning ids.

use vstd::prelude::*;

use crate::mesh::Mesh;
use crate::mesh::Rectangle;
use crate::mesh::is_rectangle_mesh;
use crate::scalar::COORD_BOUND;
use crate::vertex::Color;
use crate::view::CenteredView;

verus! {

/// A non-owning reference to a GPU texture.  The texture-loading
/// collaborator owns the resource; the batch only names it.
#[derive(Clone, Copy, Debug, PartialEq, Eq, Structural)]
pub struct TextureId {
    pub id: u64,
}

/// One draw: the texture to bind and the index of the mesh to draw.
#[derive(Clone, Copy, Debug, PartialEq, Eq, Structural)]
pub struct DrawEntry {
    pub texture: TextureId,
    pub mesh: usize,
}

/// The full set of meshes and draw order for one frame.
#[derive(Clone, Debug)]
pub struct RenderBatch {
    /// The meshes appended this frame, indexed by position.
    pub meshes: Vec<Mesh>,
    /// Draw order: `(texture, mesh index)` pairs in insertion order.
    pub mesh_indices: Vec<DrawEntry>,
    /// Number of depth layers begun so far; read by the shader to separate
    /// visually stacked draws.
    pub layer_count: u32,
    /// The camera applied to all draws of this batch at submission time.
    pub view: CenteredView,
    /// The paint color used by subsequent shape fills.
    pub color: Color,
    /// The texture used by subsequent shape fills.
    pub texture: TextureId,
}

impl RenderBatch {
    /// Well-formed: every draw entry points into `meshes`, every mesh is
    /// well-formed, and the camera and paint state are usable.
    pub open spec fn wf(self) -> bool {
        &&& forall|i: int|
            0 <= i < self.mesh_indices@.len()
                ==> (#[trigger] self.mesh_indices@[i]).mesh < self.meshes@.len()
        &&& forall|i: int| 0 <= i < self.meshes@.len() ==> (#[trigger] self.meshes@[i]).wf()
        &&& self.view.wf()
        &&& self.view.bounded(COORD_BOUND as int)
        &&& self.color.wf()
    }

    /// An empty batch: no meshes, no draw entries, layer zero, white paint,
    /// the null texture and the identity-like default view (callers should
    /// set a real view before the first submission).
    pub fn new() -> (b: RenderBatch)
        ensures
            b.meshes@.len() == 0,
            b.mesh_indices@.len() == 0,
            b.layer_count == 0,
            b.view.is_identity(),
            b.color.is_white(),
            b.texture == (TextureId { id: 0 }),
            b.wf(),
    {
        RenderBatch {
            meshes: Vec::new(),
            mesh_indices: Vec::new(),
            layer_count: 0,
            view: CenteredView::identity(),
            color: Color::white(),
            texture: TextureId { id: 0 },
        }
    }

    /// Empties `meshes` and `mesh_indices` (their backing storage is kept
    /// for reuse across frames); the view, paint state and layer counter
    /// are untouched.  Idempotent.
    pub fn clear(&mut self)
        ensures
            final(self).meshes@.len() == 0,
            final(self).mesh_indices@.len() == 0,
            final(self).layer_count == old(self).layer_count,
            final(self).view == old(self).view,
            final(self).color == old(self).color,
            final(self).texture == old(self).texture,
            old(self).wf() ==> final(self).wf(),
    {
        self.meshes.clear();
        self.mesh_indices.clear();
    }

    /// Replaces the active camera; affects only future submissions, not
    /// geometry already appended (geometry is kept in world space and the
    /// transform is applied at draw time through uniforms).
    pub fn set_view(&mut self, view: CenteredView)
        requires
            view.wf(),
            view.bounded(COORD_BOUND as int),
        ensures
            final(self).view == view,
            final(self).meshes@ == old(self).meshes@,
            final(self).mesh_indices@ == old(self).mesh_indices@,
            final(self).layer_count == old(self).layer_count,
            final(self).color == old(self).color,
            final(self).texture == old(self).texture,
            old(self).wf() ==> final(self).wf(),
    {
        self.view = view;
    }

    /// Sets the paint color used by subsequent shape fills; meshes already
    /// appended keep the color they were built with.
    pub fn set_color(&mut self, color: Color)
        requires
            color.wf(),
        ensures
            final(self).color == color,
            final(self).meshes@ == old(self).meshes@,
            final(self).mesh_indices@ == old(self).mesh_indices@,
            final(self).layer_count == old(self).layer_count,
            final(self).view == old(self).view,
            final(self).texture == old(self).texture,
            old(self).wf() ==> final(self).wf(),
    {
        self.color = color;
    }

    /// Sets the texture used by subsequent shape fills.
    pub fn set_texture(&mut self, texture: TextureId)
        ensures
            final(self).texture == texture,
            final(self).meshes@ == old(self).meshes@,
            final(self).mesh_indices@ == old(self).mesh_indices@,
            final(self).layer_count == old(self).layer_count,
            final(self).view == old(self).view,
            final(self).color == old(self).color,
            old(self).wf() ==> final(self).wf(),
    {
        self.texture = texture;
    }

    /// Begins a new depth layer: subsequent fills bake the new layer number
    /// into their vertices and the shader separates the stacked draws.
    pub fn new_layer(&mut self)
        requires
            old(self).layer_count < u32::MAX,
        ensures
            final(self).layer_count == old(self).layer_count + 1,
            final(self).meshes@ == old(self).meshes@,
            final(self).mesh_indices@ == old(self).mesh_indices@,
            final(self).view == old(self).view,
            final(self).color == old(self).color,
            final(self).texture == old(self).texture,
            old(self).wf() ==> final(self).wf(),
    {
        self.layer_count = self.layer_count + 1;
    }

    /// Builds the two-triangle mesh of `rect` with the current paint color
    /// and layer, appends it to `meshes`, and appends a `(current texture,
    /// new mesh index)` pair to `mesh_indices`, preserving paint order.
    pub fn fill_rectangle(&mut self, rect: &Rectangle)
        requires
            old(self).wf(),
            rect.wf(),
            rect.bounded(COORD_BOUND as int),
        ensures
            final(self).meshes@.len() == old(self).meshes@.len() + 1,
            final(self).meshes@ == old(self).meshes@.push(
                final(self).meshes@[old(self).meshes@.len() as int],
            ),
            is_rectangle_mesh(
                final(self).meshes@[old(self).meshes@.len() as int],
                *rect,
                old(self).color,
                old(self).layer_count,
            ),
            final(self).mesh_indices@ == old(self).mesh_indices@.push(
                DrawEntry { texture: old(self).texture, mesh: old(self).meshes@.len() as usize },
            ),
            final(self).layer_count == old(self).layer_count,
            final(self).view == old(self).view,
            final(self).color == old(self).color,
            final(self).texture == old(self).texture,
            final(self).wf(),
    {
        let mesh = Mesh::rectangle(rect, self.color, self.layer_count);
        let index = self.meshes.len();
        self.meshes.push(mesh);
        self.mesh_indices.push(DrawEntry { texture: self.texture, mesh: index });
    }
}

} // verus!
