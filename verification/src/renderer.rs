//! The renderer: consumes a [`RenderBatch`] and produces the exact GPU
//! submission sequence.
//!
//! Construction validates the uniform locations the shader collaborator
//! resolved by name — a negative location is GL's "not found" sentinel and a
//! fatal configuration error, never ignored.  [`Renderer::submit_batch`]
//! walks the batch's draw entries in insertion order and emits, per entry,
//! a texture bind, a vertex upload, an index upload and an indexed triangle
//! draw, preceded by the shader bind and the uniform uploads derived from
//! the batch's camera.  Draws execute in exactly the order entries appear in
//! `mesh_indices`, preserving painter's-algorithm semantics.

use vstd::prelude::*;

use crate::batch::RenderBatch;
use crate::buffer::GeometryBuffer;
use crate::buffer::int_max;
use crate::command::GpuCommand;
use crate::command::PrimitiveKind;
use crate::vertex::COLOR_COMPONENTS;
use crate::vertex::COLOR_OFFSET;
use crate::vertex::COLOR_SLOT;
use crate::vertex::Color;
use crate::vertex::POSITION_COMPONENTS;
use crate::vertex::POSITION_OFFSET;
use crate::vertex::POSITION_SLOT;
use crate::vertex::TEX_COORD_COMPONENTS;
use crate::vertex::TEX_COORD_OFFSET;
use crate::vertex::TEX_COORD_SLOT;
use crate::vertex::VERTEX_STRIDE;
use crate::view::is_transformation;

verus! {

/// The three uniforms the shader program must expose.
#[derive(Clone, Copy, Debug, PartialEq, Eq, Structural)]
pub enum UniformName {
    /// `translation`, two floats.
    Translation,
    /// `scale`, two floats.
    Scale,
    /// `layers`, one unsigned integer.
    Layers,
}

/// A construction-time configuration error.  No partial renderer is usable:
/// initialization aborts.
#[derive(Clone, Copy, Debug, PartialEq, Eq, Structural)]
pub enum RenderError {
    /// The named uniform was not found in the shader program (the resolver
    /// returned GL's negative "not found" sentinel).
    MissingUniform(UniformName),
}

/// GPU slots of the shader uniforms, resolved by name at construction and
/// fixed for the renderer's lifetime.
#[derive(Clone, Copy, Debug, PartialEq, Eq, Structural)]
pub struct UniformLocations {
    pub translation: i32,
    pub scale: i32,
    pub layers: i32,
}

impl UniformLocations {
    /// All three locations were actually found.
    pub open spec fn wf(self) -> bool {
        self.translation >= 0 && self.scale >= 0 && self.layers >= 0
    }
}

/// Drives GPU submission: uniform locations, the grow-only geometry buffer
/// and the stored clear color.
#[derive(Clone, Copy, Debug)]
pub struct Renderer {
    /// Locations of the shader uniforms, validated at construction.
    pub uniforms: UniformLocations,
    /// The reusable vertex/index buffer pair.
    pub buffer: GeometryBuffer,
    /// The color used by subsequent full clears.
    pub clear_color: Color,
}

/// Vertex-buffer capacity after serving the first `k` draw entries of
/// `batch`, starting from capacity `start`.
pub open spec fn vcap_after(start: int, batch: RenderBatch, k: int) -> int
    decreases k,
{
    if k <= 0 {
        start
    } else {
        int_max(
            vcap_after(start, batch, k - 1),
            batch.meshes@[batch.mesh_indices@[k - 1].mesh as int].vertices@.len() as int,
        )
    }
}

/// Index-buffer capacity after serving the first `k` draw entries of
/// `batch`, starting from capacity `start`.
pub open spec fn icap_after(start: int, batch: RenderBatch, k: int) -> int
    decreases k,
{
    if k <= 0 {
        start
    } else {
        int_max(
            icap_after(start, batch, k - 1),
            batch.meshes@[batch.mesh_indices@[k - 1].mesh as int].indices@.len() as int,
        )
    }
}

/// `cmd` uploads exactly the uniforms of `batch`: the camera's translation
/// and scale pair and the layer count.
pub open spec fn is_uniform_upload(cmd: GpuCommand, batch: RenderBatch) -> bool {
    cmd matches GpuCommand::SetUniforms { translation, scale, layers }
        && is_transformation(batch.view, translation, scale) && layers == batch.layer_count
}

/// Commands `2 + 4j` to `2 + 4j + 3` of `cmds` serve draw entry `j` of
/// `batch`: bind its texture, replace the buffer contents with its mesh's
/// vertices and indices (with the grow-only capacities reached by then,
/// starting from `buf0`), and draw the whole index range as triangles.
pub open spec fn entry_commands_ok(
    cmds: Seq<GpuCommand>,
    j: int,
    batch: RenderBatch,
    buf0: GeometryBuffer,
) -> bool {
    let entry = batch.mesh_indices@[j];
    let mesh = batch.meshes@[entry.mesh as int];
    &&& cmds[2 + 4 * j] == (GpuCommand::BindTexture { texture: entry.texture })
    &&& (cmds[2 + 4 * j + 1] matches GpuCommand::UploadVertices { vertices, capacity }
        && vertices@ == mesh.vertices@ && capacity == vcap_after(
        buf0.vertex_capacity as int,
        batch,
        j + 1,
    ))
    &&& (cmds[2 + 4 * j + 2] matches GpuCommand::UploadIndices { indices, capacity } && indices@
        == mesh.indices@ && capacity == icap_after(buf0.index_capacity as int, batch, j + 1))
    &&& (cmds[2 + 4 * j + 3] matches GpuCommand::DrawIndices { first, count, primitive } && first
        == 0 && count == mesh.indices@.len() && primitive == PrimitiveKind::Triangles)
}

/// The grow-only policy as `submit_batch` exercises it: the vertex-buffer
/// capacity after serving `k` draw entries is at least the vertex count of
/// every mesh served, and at least the starting capacity — the buffer never
/// shrinks below the historical maximum within a submission either.
pub proof fn lemma_vcap_at_least_each_upload(start: int, batch: RenderBatch, k: int, j: int)
    requires
        0 <= j < k,
    ensures
        vcap_after(start, batch, k) >= batch.meshes@[batch.mesh_indices@[j].mesh as int].vertices@.len(),
        vcap_after(start, batch, k) >= start,
    decreases k,
{
    if j == k - 1 {
        lemma_vcap_at_least_start(start, batch, k);
    } else {
        lemma_vcap_at_least_each_upload(start, batch, k - 1, j);
    }
}

/// The vertex-buffer capacity never drops below where it started.
pub proof fn lemma_vcap_at_least_start(start: int, batch: RenderBatch, k: int)
    ensures
        vcap_after(start, batch, k) >= start,
    decreases k,
{
    if k > 0 {
        lemma_vcap_at_least_start(start, batch, k - 1);
    }
}

/// The grow-only policy for the index buffer, as `submit_batch` exercises
/// it: the capacity after serving `k` draw entries is at least the index
/// count of every mesh served, and at least the starting capacity.
pub proof fn lemma_icap_at_least_each_upload(start: int, batch: RenderBatch, k: int, j: int)
    requires
        0 <= j < k,
    ensures
        icap_after(start, batch, k) >= batch.meshes@[batch.mesh_indices@[j].mesh as int].indices@.len(),
        icap_after(start, batch, k) >= start,
    decreases k,
{
    if j == k - 1 {
        lemma_icap_at_least_start(start, batch, k);
    } else {
        lemma_icap_at_least_each_upload(start, batch, k - 1, j);
    }
}

/// The index-buffer capacity never drops below where it started.
pub proof fn lemma_icap_at_least_start(start: int, batch: RenderBatch, k: int)
    ensures
        icap_after(start, batch, k) >= start,
    decreases k,
{
    if k > 0 {
        lemma_icap_at_least_start(start, batch, k - 1);
    }
}

impl Renderer {
    /// Construction state: uniform locations valid, clear color usable.
    pub open spec fn wf(self) -> bool {
        self.uniforms.wf() && self.clear_color.wf()
    }

    /// Validates the uniform locations resolved from the shader program.
    /// Succeeds if and only if all three were found; otherwise reports the
    /// first missing one, in the order translation, scale, layers.  A fresh
    /// renderer has empty buffers and clears to transparent black.
    pub fn new(uniforms: UniformLocations) -> (r: Result<Renderer, RenderError>)
        ensures
            r matches Ok(_) <==> uniforms.wf(),
            uniforms.translation < 0 ==> (r matches Err(e) && e == RenderError::MissingUniform(
                UniformName::Translation,
            )),
            uniforms.translation >= 0 && uniforms.scale < 0 ==> (r matches Err(e) && e
                == RenderError::MissingUniform(UniformName::Scale)),
            uniforms.translation >= 0 && uniforms.scale >= 0 && uniforms.layers < 0 ==> (r matches
                Err(e) && e == RenderError::MissingUniform(UniformName::Layers)),
            uniforms.wf() ==> (r matches Ok(rend) && rend.uniforms == uniforms
                && rend.buffer.vertex_capacity == 0 && rend.buffer.index_capacity == 0
                && rend.buffer.vertex_len == 0 && rend.buffer.index_len == 0
                && rend.clear_color.is_transparent_black() && rend.wf()),
    {
        if uniforms.translation < 0 {
            Err(RenderError::MissingUniform(UniformName::Translation))
        } else if uniforms.scale < 0 {
            Err(RenderError::MissingUniform(UniformName::Scale))
        } else if uniforms.layers < 0 {
            Err(RenderError::MissingUniform(UniformName::Layers))
        } else {
            Ok(
                Renderer {
                    uniforms,
                    buffer: GeometryBuffer::new(),
                    clear_color: Color::transparent_black(),
                },
            )
        }
    }

    /// The one-time GL state of a new renderer: enable the depth test and
    /// standard alpha blending, and bind the three vertex attributes with
    /// the stride and offsets computed from the authoritative vertex layout.
    pub fn setup_commands(&self) -> (cmds: Vec<GpuCommand>)
        ensures
            cmds@.len() == 5,
            cmds@[0] == GpuCommand::EnableDepthTest,
            cmds@[1] == GpuCommand::EnableAlphaBlend,
            cmds@[2] == (GpuCommand::ConfigureAttribute {
                slot: POSITION_SLOT,
                components: POSITION_COMPONENTS,
                stride: VERTEX_STRIDE,
                offset: POSITION_OFFSET,
            }),
            cmds@[3] == (GpuCommand::ConfigureAttribute {
                slot: COLOR_SLOT,
                components: COLOR_COMPONENTS,
                stride: VERTEX_STRIDE,
                offset: COLOR_OFFSET,
            }),
            cmds@[4] == (GpuCommand::ConfigureAttribute {
                slot: TEX_COORD_SLOT,
                components: TEX_COORD_COMPONENTS,
                stride: VERTEX_STRIDE,
                offset: TEX_COORD_OFFSET,
            }),
    {
        let mut cmds: Vec<GpuCommand> = Vec::new();
        cmds.push(GpuCommand::EnableDepthTest);
        cmds.push(GpuCommand::EnableAlphaBlend);
        cmds.push(
            GpuCommand::ConfigureAttribute {
                slot: POSITION_SLOT,
                components: POSITION_COMPONENTS,
                stride: VERTEX_STRIDE,
                offset: POSITION_OFFSET,
            },
        );
        cmds.push(
            GpuCommand::ConfigureAttribute {
                slot: COLOR_SLOT,
                components: COLOR_COMPONENTS,
                stride: VERTEX_STRIDE,
                offset: COLOR_OFFSET,
            },
        );
        cmds.push(
            GpuCommand::ConfigureAttribute {
                slot: TEX_COORD_SLOT,
                components: TEX_COORD_COMPONENTS,
                stride: VERTEX_STRIDE,
                offset: TEX_COORD_OFFSET,
            },
        );
        cmds
    }

    /// Stores the color used by subsequent full clears.
    pub fn set_clear_color(&mut self, color: Color) -> (cmd: GpuCommand)
        requires
            color.wf(),
        ensures
            final(self).clear_color == color,
            final(self).uniforms == old(self).uniforms,
            final(self).buffer == old(self).buffer,
            cmd == (GpuCommand::SetClearColor { color }),
            old(self).wf() ==> final(self).wf(),
    {
        self.clear_color = color;
        GpuCommand::SetClearColor { color }
    }

    /// Clears the color, depth and stencil buffers — the full frame clear.
    pub fn clear(&self) -> (cmd: GpuCommand)
        ensures
            cmd == GpuCommand::ClearAll,
    {
        GpuCommand::ClearAll
    }

    /// Clears only the depth buffer, to draw a later layer onto the same
    /// color buffer without depth-fighting across layers.
    pub fn clear_depth(&self) -> (cmd: GpuCommand)
        ensures
            cmd == GpuCommand::ClearDepth,
    {
        GpuCommand::ClearDepth
    }

    /// The core algorithm: turns `batch` into the exact GPU submission
    /// sequence.  First the shader bind and the uniform uploads derived from
    /// the batch's camera and layer count; then, for each `(texture, mesh)`
    /// entry in insertion order, a texture bind, a vertex upload, an index
    /// upload and an indexed triangle draw over the whole mesh.  The
    /// geometry buffer grows to the largest upload seen and never shrinks.
    pub fn submit_batch(&mut self, batch: &RenderBatch) -> (cmds: Vec<GpuCommand>)
        requires
            old(self).wf(),
            batch.wf(),
        ensures
            final(self).uniforms == old(self).uniforms,
            final(self).clear_color == old(self).clear_color,
            final(self).wf(),
            cmds@.len() == 2 + 4 * batch.mesh_indices@.len(),
            cmds@[0] == GpuCommand::UseProgram,
            is_uniform_upload(cmds@[1], *batch),
            forall|j: int|
                0 <= j < batch.mesh_indices@.len() ==> entry_commands_ok(
                    cmds@,
                    j,
                    *batch,
                    old(self).buffer,
                ),
            final(self).buffer.vertex_capacity == vcap_after(
                old(self).buffer.vertex_capacity as int,
                *batch,
                batch.mesh_indices@.len() as int,
            ),
            final(self).buffer.index_capacity == icap_after(
                old(self).buffer.index_capacity as int,
                *batch,
                batch.mesh_indices@.len() as int,
            ),
            final(self).buffer.vertex_capacity >= old(self).buffer.vertex_capacity,
            final(self).buffer.index_capacity >= old(self).buffer.index_capacity,
    {
        let ghost buf0 = self.buffer;
        let mut cmds: Vec<GpuCommand> = Vec::new();
        cmds.push(GpuCommand::UseProgram);
        let (translation, scale) = batch.view.get_transformation();
        cmds.push(GpuCommand::SetUniforms { translation, scale, layers: batch.layer_count });

        let mut j: usize = 0;
        while j < batch.mesh_indices.len()
            invariant
                batch.wf(),
                self.uniforms == old(self).uniforms,
                self.clear_color == old(self).clear_color,
                j <= batch.mesh_indices@.len(),
                cmds@.len() == 2 + 4 * j,
                cmds@[0] == GpuCommand::UseProgram,
                is_uniform_upload(cmds@[1], *batch),
                forall|k: int| 0 <= k < j ==> entry_commands_ok(cmds@, k, *batch, buf0),
                self.buffer.vertex_capacity == vcap_after(
                    buf0.vertex_capacity as int,
                    *batch,
                    j as int,
                ),
                self.buffer.index_capacity == icap_after(
                    buf0.index_capacity as int,
                    *batch,
                    j as int,
                ),
                buf0.vertex_capacity <= self.buffer.vertex_capacity,
                buf0.index_capacity <= self.buffer.index_capacity,
            decreases batch.mesh_indices@.len() - j,
        {
            let ghost prev = cmds@;
            let entry = batch.mesh_indices[j];
            assert(entry.mesh < batch.meshes@.len());
            let mesh = &batch.meshes[entry.mesh];
            cmds.push(GpuCommand::BindTexture { texture: entry.texture });
            let upload_v = self.buffer.upload_vertices(&mesh.vertices);
            cmds.push(upload_v);
            let upload_i = self.buffer.upload_indices(&mesh.indices);
            cmds.push(upload_i);
            let draw = self.buffer.draw_indices(0, mesh.indices.len(), PrimitiveKind::Triangles);
            cmds.push(draw);
            j = j + 1;
            proof {
                assert forall|k: int| 0 <= k < j implies entry_commands_ok(
                    cmds@,
                    k,
                    *batch,
                    buf0,
                ) by {
                    if k < j - 1 {
                        assert(entry_commands_ok(prev, k, *batch, buf0));
                        assert(cmds@[2 + 4 * k] == prev[2 + 4 * k]);
                        assert(cmds@[2 + 4 * k + 1] == prev[2 + 4 * k + 1]);
                        assert(cmds@[2 + 4 * k + 2] == prev[2 + 4 * k + 2]);
                        assert(cmds@[2 + 4 * k + 3] == prev[2 + 4 * k + 3]);
                    }
                }
            }
        }
        cmds
    }
}

} // verus!
