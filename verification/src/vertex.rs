//! The vertex record and its GPU layout.
//!
//! A [`Vertex`] carries a three-component position (x, y in world space, z
//! the depth layer), an RGBA color and a texture coordinate.  The byte
//! layout the GPU sees — three, four and two 32-bit floats per field, in
//! that order — is described by the constants below, which are the single
//! authoritative source for the attribute slots, component counts, stride
//! and per-field offsets bound at renderer construction.

use vstd::prelude::*;

use crate::view::Vec2;
use crate::scalar::Scalar;

verus! {

/// Attribute slot of the vertex position.
pub const POSITION_SLOT: u32 = 0;

/// Attribute slot of the vertex color.
pub const COLOR_SLOT: u32 = 1;

/// Attribute slot of the texture coordinate.
pub const TEX_COORD_SLOT: u32 = 2;

/// Float components of the position attribute.
pub const POSITION_COMPONENTS: u32 = 3;

/// Float components of the color attribute.
pub const COLOR_COMPONENTS: u32 = 4;

/// Float components of the texture-coordinate attribute.
pub const TEX_COORD_COMPONENTS: u32 = 2;

/// Bytes per float component on the GPU.
pub const FLOAT_BYTES: u32 = 4;

/// Byte offset of the position field inside a GPU vertex.
pub const POSITION_OFFSET: u32 = 0;

/// Byte offset of the color field inside a GPU vertex.
pub const COLOR_OFFSET: u32 = POSITION_COMPONENTS * FLOAT_BYTES;

/// Byte offset of the texture-coordinate field inside a GPU vertex.
pub const TEX_COORD_OFFSET: u32 = (POSITION_COMPONENTS + COLOR_COMPONENTS) * FLOAT_BYTES;

/// Byte stride between consecutive GPU vertices.
pub const VERTEX_STRIDE: u32 = (POSITION_COMPONENTS + COLOR_COMPONENTS + TEX_COORD_COMPONENTS)
    * FLOAT_BYTES;

/// A three-component vector of exact rational scalars.
#[derive(Clone, Copy, Debug, PartialEq, Eq, Structural)]
pub struct Vec3 {
    pub x: Scalar,
    pub y: Scalar,
    pub z: Scalar,
}

impl Vec3 {
    pub open spec fn wf(self) -> bool {
        self.x.wf() && self.y.wf() && self.z.wf()
    }
}

/// An RGBA color with exact rational components in `[0, 1]`.
#[derive(Clone, Copy, Debug, PartialEq, Eq, Structural)]
pub struct Color {
    pub r: Scalar,
    pub g: Scalar,
    pub b: Scalar,
    pub a: Scalar,
}

impl Color {
    pub open spec fn wf(self) -> bool {
        self.r.wf() && self.g.wf() && self.b.wf() && self.a.wf()
    }

    /// Opaque white: all four components exactly one.
    pub open spec fn is_white(self) -> bool {
        &&& self.r.num == 1 && self.r.den == 1
        &&& self.g.num == 1 && self.g.den == 1
        &&& self.b.num == 1 && self.b.den == 1
        &&& self.a.num == 1 && self.a.den == 1
    }

    /// Fully transparent black: all four components exactly zero.
    pub open spec fn is_transparent_black(self) -> bool {
        &&& self.r.num == 0 && self.r.den == 1
        &&& self.g.num == 0 && self.g.den == 1
        &&& self.b.num == 0 && self.b.den == 1
        &&& self.a.num == 0 && self.a.den == 1
    }

    /// Opaque white, the paint color a fresh batch starts with.
    pub fn white() -> (c: Color)
        ensures
            c.is_white(),
            c.wf(),
    {
        let one = Scalar { num: 1, den: 1 };
        Color { r: one, g: one, b: one, a: one }
    }

    /// Fully transparent black, the default clear color.
    pub fn transparent_black() -> (c: Color)
        ensures
            c.is_transparent_black(),
            c.wf(),
    {
        let zero = Scalar { num: 0, den: 1 };
        Color { r: zero, g: zero, b: zero, a: zero }
    }
}

/// One vertex as the shader consumes it: position (slot 0), color (slot 1)
/// and texture coordinate (slot 2).
#[derive(Clone, Copy, Debug, PartialEq, Eq, Structural)]
pub struct Vertex {
    pub position: Vec3,
    pub color: Color,
    pub tex_coord: Vec2,
}

impl Vertex {
    pub open spec fn wf(self) -> bool {
        self.position.wf() && self.color.wf() && self.tex_coord.wf()
    }
}

} // verus!
