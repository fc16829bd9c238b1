//! CPU-side geometry: one mesh per drawable shape.
//!
//! A [`Mesh`] is an ordered vertex list plus a triangle index list; every
//! index must point into the vertex list.  [`Mesh::rectangle`] builds the
//! two-triangle mesh of an axis-aligned rectangle from its center and size,
//! with the current paint color and the current depth layer baked into the
//! vertices.

use vstd::prelude::*;

use crate::scalar::COORD_BOUND;
use crate::scalar::Scalar;
use crate::scalar::lemma_mul_fits;
use crate::scalar::lemma_pos_mul_pos;
use crate::vertex::Color;
use crate::vertex::Vec3;
use crate::vertex::Vertex;
use crate::view::Vec2;

verus! {

/// `a` is exactly the fraction `n / d`.
pub open spec fn scalar_is(a: Scalar, n: int, d: int) -> bool {
    a.num == n && a.den == d
}

/// An axis-aligned rectangle given by its world-space center and size.
#[derive(Clone, Copy, Debug, PartialEq, Eq, Structural)]
pub struct Rectangle {
    pub center: Vec2,
    pub size: Vec2,
}

impl Rectangle {
    pub open spec fn wf(self) -> bool {
        self.center.wf() && self.size.wf()
    }

    pub open spec fn bounded(self, b: int) -> bool {
        self.center.bounded(b) && self.size.bounded(b)
    }

    pub fn new(center: Vec2, size: Vec2) -> (r: Rectangle)
        ensures
            r.center == center,
            r.size == size,
    {
        Rectangle { center, size }
    }
}

/// Numerator of the lower edge `c - s / 2` of an axis.
pub open spec fn lo_num(c: Scalar, s: Scalar) -> int {
    c.num * (2 * s.den) - s.num * c.den
}

/// Numerator of the upper edge `c + s / 2` of an axis.
pub open spec fn hi_num(c: Scalar, s: Scalar) -> int {
    c.num * (2 * s.den) + s.num * c.den
}

/// Denominator shared by both edges of an axis.
pub open spec fn edge_den(c: Scalar, s: Scalar) -> int {
    c.den * (2 * s.den)
}

/// `v` is the rectangle corner at position `(xn/xd, yn/yd)`, on depth layer
/// `layer`, painted `color`, with integer texture coordinate `(u, t)`.
pub open spec fn is_corner_vertex(
    v: Vertex,
    xn: int,
    xd: int,
    yn: int,
    yd: int,
    color: Color,
    layer: u32,
    u: int,
    t: int,
) -> bool {
    &&& scalar_is(v.position.x, xn, xd)
    &&& scalar_is(v.position.y, yn, yd)
    &&& scalar_is(v.position.z, layer as int, 1)
    &&& v.color == color
    &&& scalar_is(v.tex_coord.x, u, 1)
    &&& scalar_is(v.tex_coord.y, t, 1)
}

/// `m` is exactly the two-triangle mesh of `rect`: four corner vertices in
/// the order bottom-left, bottom-right, top-right, top-left, and the six
/// indices `[0, 1, 2, 2, 3, 0]`.
pub open spec fn is_rectangle_mesh(m: Mesh, rect: Rectangle, color: Color, layer: u32) -> bool {
    let cx = rect.center.x;
    let cy = rect.center.y;
    let w = rect.size.x;
    let h = rect.size.y;
    &&& m.vertices@.len() == 4
    &&& is_corner_vertex(
        m.vertices@[0],
        lo_num(cx, w),
        edge_den(cx, w),
        lo_num(cy, h),
        edge_den(cy, h),
        color,
        layer,
        0,
        0,
    )
    &&& is_corner_vertex(
        m.vertices@[1],
        hi_num(cx, w),
        edge_den(cx, w),
        lo_num(cy, h),
        edge_den(cy, h),
        color,
        layer,
        1,
        0,
    )
    &&& is_corner_vertex(
        m.vertices@[2],
        hi_num(cx, w),
        edge_den(cx, w),
        hi_num(cy, h),
        edge_den(cy, h),
        color,
        layer,
        1,
        1,
    )
    &&& is_corner_vertex(
        m.vertices@[3],
        lo_num(cx, w),
        edge_den(cx, w),
        hi_num(cy, h),
        edge_den(cy, h),
        color,
        layer,
        0,
        1,
    )
    &&& m.indices@ =~= seq![0u32, 1u32, 2u32, 2u32, 3u32, 0u32]
}

/// Vertex and triangle-index lists of one drawable shape.
#[derive(Clone, Debug)]
pub struct Mesh {
    pub vertices: Vec<Vertex>,
    pub indices: Vec<u32>,
}

impl Mesh {
    /// Well-formed: every index points into the vertex list and every vertex
    /// is well-formed.
    pub open spec fn wf(self) -> bool {
        &&& forall|i: int|
            0 <= i < self.indices@.len() ==> (#[trigger] self.indices@[i]) < self.vertices@.len()
        &&& forall|i: int| 0 <= i < self.vertices@.len() ==> (#[trigger] self.vertices@[i]).wf()
    }

    /// Builds the two-triangle mesh of `rect`: four vertices and six
    /// indices covering the rectangle `center ± size / 2`.
    pub fn rectangle(rect: &Rectangle, color: Color, layer: u32) -> (m: Mesh)
        requires
            rect.wf(),
            rect.bounded(COORD_BOUND as int),
            color.wf(),
        ensures
            is_rectangle_mesh(m, *rect, color, layer),
            m.wf(),
    {
        let (left, right) = axis_interval(rect.center.x, rect.size.x);
        let (bottom, top) = axis_interval(rect.center.y, rect.size.y);
        let z = Scalar { num: layer as i128, den: 1 };
        let zero = Scalar { num: 0, den: 1 };
        let one = Scalar { num: 1, den: 1 };

        let mut vertices: Vec<Vertex> = Vec::new();
        vertices.push(Vertex {
            position: Vec3 { x: left, y: bottom, z },
            color,
            tex_coord: Vec2 { x: zero, y: zero },
        });
        vertices.push(Vertex {
            position: Vec3 { x: right, y: bottom, z },
            color,
            tex_coord: Vec2 { x: one, y: zero },
        });
        vertices.push(Vertex {
            position: Vec3 { x: right, y: top, z },
            color,
            tex_coord: Vec2 { x: one, y: one },
        });
        vertices.push(Vertex {
            position: Vec3 { x: left, y: top, z },
            color,
            tex_coord: Vec2 { x: zero, y: one },
        });

        let mut indices: Vec<u32> = Vec::new();
        indices.push(0);
        indices.push(1);
        indices.push(2);
        indices.push(2);
        indices.push(3);
        indices.push(0);

        proof {
            assert(indices@ =~= seq![0u32, 1u32, 2u32, 2u32, 3u32, 0u32]);
        }
        Mesh { vertices, indices }
    }
}

/// Both edges `c - s / 2` and `c + s / 2` of one rectangle axis.
fn axis_interval(c: Scalar, s: Scalar) -> (r: (Scalar, Scalar))
    requires
        c.wf(),
        s.wf(),
        c.bounded(COORD_BOUND as int),
        s.bounded(COORD_BOUND as int),
    ensures
        scalar_is(r.0, lo_num(c, s), edge_den(c, s)),
        scalar_is(r.1, hi_num(c, s), edge_den(c, s)),
        r.0.wf(),
        r.1.wf(),
{
    proof {
        lemma_mul_fits(c.num as int, 2 * s.den as int, COORD_BOUND as int, 2 * COORD_BOUND as int);
        lemma_mul_fits(s.num as int, c.den as int, COORD_BOUND as int, COORD_BOUND as int);
        lemma_mul_fits(c.den as int, 2 * s.den as int, COORD_BOUND as int, 2 * COORD_BOUND as int);
        lemma_pos_mul_pos(c.den as int, 2 * s.den as int);
    }
    let half = s.half();
    (c.minus(half), c.plus(half))
}

} // verus!
