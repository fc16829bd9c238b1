//! The geometry buffer: a reusable pair of GPU-resident vertex and index
//! buffers.
//!
//! The buffer is sized lazily to the largest upload seen — grow-only, never
//! shrinking, so that varying shape counts across frames never cause
//! reallocation thrash.  This module tracks the capacities and current
//! contents lengths and proves the grow-only policy; the actual GL buffer
//! objects live in the backend, which follows the `capacity` field of the
//! upload commands it receives.

use vstd::prelude::*;

use crate::command::GpuCommand;
use crate::command::PrimitiveKind;
use crate::vertex::Vertex;

verus! {

/// The larger of two integers.
pub open spec fn int_max(a: int, b: int) -> int {
    if a >= b {
        a
    } else {
        b
    }
}

/// The buffer capacity after starting from `start` and serving the given
/// upload sizes in order: each upload grows the capacity to its size if the
/// capacity was smaller, and never shrinks it.
pub open spec fn capacity_after(start: int, uploads: Seq<int>) -> int
    decreases uploads.len(),
{
    if uploads.len() == 0 {
        start
    } else {
        capacity_after(int_max(start, uploads[0]), uploads.drop_first())
    }
}

/// Capacity and current contents length of one GPU vertex buffer and one
/// GPU index buffer.
#[derive(Clone, Copy, Debug, PartialEq, Eq, Structural)]
pub struct GeometryBuffer {
    /// Grow-only size of the vertex buffer, in vertices.
    pub vertex_capacity: usize,
    /// Grow-only size of the index buffer, in indices.
    pub index_capacity: usize,
    /// Length of the vertex data uploaded last.
    pub vertex_len: usize,
    /// Length of the index data uploaded last.
    pub index_len: usize,
}

impl GeometryBuffer {
    /// A fresh buffer pair with nothing allocated and nothing uploaded.
    pub fn new() -> (b: GeometryBuffer)
        ensures
            b.vertex_capacity == 0,
            b.index_capacity == 0,
            b.vertex_len == 0,
            b.index_len == 0,
    {
        GeometryBuffer { vertex_capacity: 0, index_capacity: 0, vertex_len: 0, index_len: 0 }
    }

    /// Replaces the vertex buffer contents with `vertices`, growing the
    /// capacity to the upload size if it was smaller — never shrinking it.
    pub fn upload_vertices(&mut self, vertices: &Vec<Vertex>) -> (cmd: GpuCommand)
        ensures
            final(self).vertex_capacity == int_max(
                old(self).vertex_capacity as int,
                vertices@.len() as int,
            ),
            final(self).vertex_capacity >= old(self).vertex_capacity,
            final(self).vertex_len == vertices@.len(),
            final(self).index_capacity == old(self).index_capacity,
            final(self).index_len == old(self).index_len,
            (cmd matches GpuCommand::UploadVertices { vertices: data, capacity } && data@
                == vertices@ && capacity == final(self).vertex_capacity),
    {
        if vertices.len() > self.vertex_capacity {
            self.vertex_capacity = vertices.len();
        }
        self.vertex_len = vertices.len();
        GpuCommand::UploadVertices {
            vertices: copy_vertices(vertices),
            capacity: self.vertex_capacity,
        }
    }

    /// Replaces the index buffer contents with `indices`, growing the
    /// capacity to the upload size if it was smaller — never shrinking it.
    pub fn upload_indices(&mut self, indices: &Vec<u32>) -> (cmd: GpuCommand)
        ensures
            final(self).index_capacity == int_max(
                old(self).index_capacity as int,
                indices@.len() as int,
            ),
            final(self).index_capacity >= old(self).index_capacity,
            final(self).index_len == indices@.len(),
            final(self).vertex_capacity == old(self).vertex_capacity,
            final(self).vertex_len == old(self).vertex_len,
            (cmd matches GpuCommand::UploadIndices { indices: data, capacity } && data@ == indices@
                && capacity == final(self).index_capacity),
    {
        if indices.len() > self.index_capacity {
            self.index_capacity = indices.len();
        }
        self.index_len = indices.len();
        GpuCommand::UploadIndices { indices: copy_indices(indices), capacity: self.index_capacity }
    }

    /// Issues an indexed draw over a range of the uploaded index contents.
    pub fn draw_indices(&self, first: usize, count: usize, primitive: PrimitiveKind) -> (cmd:
        GpuCommand)
        requires
            first + count <= self.index_len,
        ensures
            cmd == (GpuCommand::DrawIndices { first, count, primitive }),
    {
        GpuCommand::DrawIndices { first, count, primitive }
    }
}

/// After any run of uploads the capacity is at least the starting capacity:
/// the buffer never shrinks.
pub proof fn lemma_capacity_at_least_start(start: int, uploads: Seq<int>)
    ensures
        capacity_after(start, uploads) >= start,
    decreases uploads.len(),
{
    if uploads.len() > 0 {
        lemma_capacity_at_least_start(int_max(start, uploads[0]), uploads.drop_first());
    }
}

/// The grow-only policy: after any run of uploads — shrinking, growing, in
/// any order — the capacity is at least every upload size served, i.e. it
/// never drops below the historical maximum.
pub proof fn lemma_capacity_never_below_historical_max(start: int, uploads: Seq<int>, i: int)
    requires
        0 <= i < uploads.len(),
    ensures
        capacity_after(start, uploads) >= uploads[i],
    decreases uploads.len(),
{
    if i == 0 {
        lemma_capacity_at_least_start(int_max(start, uploads[0]), uploads.drop_first());
    } else {
        lemma_capacity_never_below_historical_max(
            int_max(start, uploads[0]),
            uploads.drop_first(),
            i - 1,
        );
        assert(uploads.drop_first()[i - 1] == uploads[i]);
    }
}

/// An element-wise copy of a vertex list.
fn copy_vertices(src: &Vec<Vertex>) -> (r: Vec<Vertex>)
    ensures
        r@ == src@,
{
    let mut r: Vec<Vertex> = Vec::new();
    let mut i: usize = 0;
    while i < src.len()
        invariant
            i <= src.len(),
            r@ == src@.subrange(0, i as int),
        decreases src.len() - i,
    {
        r.push(src[i]);
        i = i + 1;
        proof {
            assert(r@ =~= src@.subrange(0, i as int));
        }
    }
    proof {
        assert(r@ =~= src@);
    }
    r
}

/// An element-wise copy of an index list.
fn copy_indices(src: &Vec<u32>) -> (r: Vec<u32>)
    ensures
        r@ == src@,
{
    let mut r: Vec<u32> = Vec::new();
    let mut i: usize = 0;
    while i < src.len()
        invariant
            i <= src.len(),
            r@ == src@.subrange(0, i as int),
        decreases src.len() - i,
    {
        r.push(src[i]);
        i = i + 1;
        proof {
            assert(r@ =~= src@.subrange(0, i as int));
        }
    }
    proof {
        assert(r@ =~= src@);
    }
    r
}

} // verus!
