//! The camera: a translation-plus-scale transform between three coordinate
//! spaces.
//!
//! * **world** — the space shapes are built in;
//! * **NDC** — normalized device coordinates, the `[-1, 1]` square the GPU
//!   rasterizes into;
//! * **window pixels** — integer positions with the origin at the *top-left*
//!   corner of the window and y growing downward.  The conversion to NDC
//!   flips the y axis, so NDC y grows upward as GL expects.
//!
//! A [`CenteredView`] holds the world-space point the viewport is centered on
//! and the viewport size in world units.  It derives the `(translation,
//! scale)` uniform pair (`scale = 2 / size`, `translation = -center * scale`)
//! consumed by the shader, and the inverse mapping `ndc_to_world` used for
//! cursor picking.  Because all coordinates are exact rationals, the round
//! trip `ndc_to_world(world_to_ndc(p)) == p` is proved as an exact identity.

use vstd::prelude::*;

use crate::scalar::COORD_BOUND;
use crate::scalar::NDC_BOUND;
use crate::scalar::Scalar;
use crate::scalar::lemma_mul_fits;
use crate::scalar::lemma_pos_mul_pos;

verus! {

/// A two-component vector of exact rational scalars.
#[derive(Clone, Copy, Debug, PartialEq, Eq, Structural)]
pub struct Vec2 {
    pub x: Scalar,
    pub y: Scalar,
}

impl Vec2 {
    pub open spec fn wf(self) -> bool {
        self.x.wf() && self.y.wf()
    }

    pub open spec fn bounded(self, b: int) -> bool {
        self.x.bounded(b) && self.y.bounded(b)
    }

    pub fn new(x: Scalar, y: Scalar) -> (r: Vec2)
        ensures
            r.x == x,
            r.y == y,
    {
        Vec2 { x, y }
    }

    /// The integer point `(x, y)` as a vector.
    pub fn from_ints(x: i64, y: i64) -> (r: Vec2)
        ensures
            r.x.num == x as int,
            r.x.den == 1,
            r.y.num == y as int,
            r.y.den == 1,
            r.wf(),
            -COORD_BOUND <= x <= COORD_BOUND && -COORD_BOUND <= y <= COORD_BOUND
                ==> r.bounded(COORD_BOUND as int),
    {
        Vec2 { x: Scalar::from_int(x), y: Scalar::from_int(y) }
    }
}

/// A camera described by the world-space point it is centered on and the
/// viewport size in world units.
#[derive(Clone, Copy, Debug, PartialEq, Eq, Structural)]
pub struct CenteredView {
    pub center: Vec2,
    pub size: Vec2,
}

/// One axis of the world-to-NDC mapping `ndc = (p - center) * 2 / size`,
/// written over the exact numerator/denominator representation.
pub open spec fn axis_ndc(p: Scalar, c: Scalar, s: Scalar, q: Scalar) -> bool {
    &&& q.num == (p.num * c.den - c.num * p.den) * (2 * s.den)
    &&& q.den == (p.den * c.den) * s.num
}

/// One axis of the NDC-to-world mapping `world = center + ndc * size / 2`,
/// written over the exact numerator/denominator representation.
pub open spec fn axis_world(q: Scalar, c: Scalar, s: Scalar, w: Scalar) -> bool {
    &&& w.num == c.num * (2 * (q.den * s.den)) + (q.num * s.num) * c.den
    &&& w.den == c.den * (2 * (q.den * s.den))
}

/// One axis of the uniform pair: `scale = 2 / size` and
/// `translation = -center * scale`.
pub open spec fn axis_transform(c: Scalar, s: Scalar, t: Scalar, sc: Scalar) -> bool {
    &&& sc.num == 2 * s.den
    &&& sc.den == s.num
    &&& t.num == (-c.num) * (2 * s.den)
    &&& t.den == c.den * s.num
}

/// `q` is exactly `world_to_ndc(v, p)`.
pub open spec fn is_world_to_ndc(v: CenteredView, p: Vec2, q: Vec2) -> bool {
    &&& axis_ndc(p.x, v.center.x, v.size.x, q.x)
    &&& axis_ndc(p.y, v.center.y, v.size.y, q.y)
}

/// `w` is exactly `ndc_to_world(v, q)`.
pub open spec fn is_ndc_to_world(v: CenteredView, q: Vec2, w: Vec2) -> bool {
    &&& axis_world(q.x, v.center.x, v.size.x, w.x)
    &&& axis_world(q.y, v.center.y, v.size.y, w.y)
}

/// `(t, sc)` is exactly the `(translation, scale)` uniform pair of `v`.
pub open spec fn is_transformation(v: CenteredView, t: Vec2, sc: Vec2) -> bool {
    &&& axis_transform(v.center.x, v.size.x, t.x, sc.x)
    &&& axis_transform(v.center.y, v.size.y, t.y, sc.y)
}

impl CenteredView {
    /// Well-formed: all denominators positive and both size components
    /// strictly positive.
    pub open spec fn wf(self) -> bool {
        &&& self.center.wf()
        &&& self.size.wf()
        &&& self.size.x.num > 0
        &&& self.size.y.num > 0
    }

    pub open spec fn bounded(self, b: int) -> bool {
        self.center.bounded(b) && self.size.bounded(b)
    }

    pub fn new(center: Vec2, size: Vec2) -> (v: CenteredView)
        requires
            center.wf(),
            size.wf(),
            size.x.num > 0,
            size.y.num > 0,
        ensures
            v.center == center,
            v.size == size,
            v.wf(),
    {
        CenteredView { center, size }
    }

    /// Centered on the origin with a size of two world units per axis, so
    /// that world coordinates and NDC coincide.
    pub open spec fn is_identity(self) -> bool {
        &&& self.center.x.num == 0 && self.center.x.den == 1
        &&& self.center.y.num == 0 && self.center.y.den == 1
        &&& self.size.x.num == 2 && self.size.x.den == 1
        &&& self.size.y.num == 2 && self.size.y.den == 1
    }

    /// The identity-like default view: centered on the origin with a size of
    /// two world units per axis, so that world coordinates and NDC coincide.
    pub fn identity() -> (v: CenteredView)
        ensures
            v.is_identity(),
            v.wf(),
            v.bounded(COORD_BOUND as int),
    {
        CenteredView {
            center: Vec2 { x: Scalar { num: 0, den: 1 }, y: Scalar { num: 0, den: 1 } },
            size: Vec2 { x: Scalar { num: 2, den: 1 }, y: Scalar { num: 2, den: 1 } },
        }
    }

    /// The `(translation, scale)` pair uploaded as shader uniforms:
    /// `scale = 2 / size` maps world units to the `[-1, 1]` NDC range and
    /// `translation = -center * scale` moves the view center to the origin.
    pub fn get_transformation(&self) -> (r: (Vec2, Vec2))
        requires
            self.wf(),
            self.bounded(COORD_BOUND as int),
        ensures
            is_transformation(*self, r.0, r.1),
            r.0.wf(),
            r.1.wf(),
    {
        proof {
            lemma_mul_fits(
                -self.center.x.num as int,
                2 * self.size.x.den as int,
                COORD_BOUND as int,
                2 * COORD_BOUND as int,
            );
            lemma_mul_fits(
                -self.center.y.num as int,
                2 * self.size.y.den as int,
                COORD_BOUND as int,
                2 * COORD_BOUND as int,
            );
            lemma_mul_fits(
                self.center.x.den as int,
                self.size.x.num as int,
                COORD_BOUND as int,
                COORD_BOUND as int,
            );
            lemma_mul_fits(
                self.center.y.den as int,
                self.size.y.num as int,
                COORD_BOUND as int,
                COORD_BOUND as int,
            );
        }
        let scale_x = Scalar { num: 2 * self.size.x.den, den: self.size.x.num };
        let scale_y = Scalar { num: 2 * self.size.y.den, den: self.size.y.num };
        let translation_x = self.center.x.neg().times(scale_x);
        let translation_y = self.center.y.neg().times(scale_y);
        (Vec2 { x: translation_x, y: translation_y }, Vec2 { x: scale_x, y: scale_y })
    }

    /// Maps a world-space point to normalized device coordinates:
    /// `ndc = (p - center) * 2 / size`.
    pub fn world_to_ndc(&self, p: Vec2) -> (q: Vec2)
        requires
            self.wf(),
            self.bounded(COORD_BOUND as int),
            p.wf(),
            p.bounded(COORD_BOUND as int),
        ensures
            is_world_to_ndc(*self, p, q),
            q.wf(),
            q.bounded(NDC_BOUND as int),
    {
        let qx = axis_world_to_ndc(p.x, self.center.x, self.size.x);
        let qy = axis_world_to_ndc(p.y, self.center.y, self.size.y);
        Vec2 { x: qx, y: qy }
    }

    /// Maps normalized device coordinates back to world space:
    /// `world = center + ndc * size / 2`.  Used for cursor picking; accepts
    /// any NDC value the transforms of this crate produce.
    pub fn ndc_to_world(&self, q: Vec2) -> (w: Vec2)
        requires
            self.wf(),
            self.bounded(COORD_BOUND as int),
            q.wf(),
            q.bounded(NDC_BOUND as int),
        ensures
            is_ndc_to_world(*self, q, w),
            w.wf(),
    {
        let wx = axis_ndc_to_world(q.x, self.center.x, self.size.x);
        let wy = axis_ndc_to_world(q.y, self.center.y, self.size.y);
        Vec2 { x: wx, y: wy }
    }
}

/// One axis of `world_to_ndc`.
fn axis_world_to_ndc(p: Scalar, c: Scalar, s: Scalar) -> (q: Scalar)
    requires
        p.wf(),
        c.wf(),
        s.wf(),
        s.num > 0,
        p.bounded(COORD_BOUND as int),
        c.bounded(COORD_BOUND as int),
        s.bounded(COORD_BOUND as int),
    ensures
        axis_ndc(p, c, s, q),
        q.wf(),
        q.bounded(NDC_BOUND as int),
{
    proof {
        lemma_mul_fits(p.num as int, c.den as int, COORD_BOUND as int, COORD_BOUND as int);
        lemma_mul_fits(c.num as int, p.den as int, COORD_BOUND as int, COORD_BOUND as int);
        lemma_mul_fits(p.den as int, c.den as int, COORD_BOUND as int, COORD_BOUND as int);
        lemma_mul_fits(
            p.num * c.den - c.num * p.den,
            2 * s.den as int,
            2 * COORD_BOUND as int * COORD_BOUND as int,
            2 * COORD_BOUND as int,
        );
        lemma_mul_fits(
            p.den * c.den,
            s.num as int,
            COORD_BOUND as int * COORD_BOUND as int,
            COORD_BOUND as int,
        );
        lemma_pos_mul_pos(p.den as int, c.den as int);
        lemma_pos_mul_pos(p.den * c.den, s.num as int);
    }
    let diff = p.minus(c);
    let scale = Scalar { num: 2 * s.den, den: s.num };
    diff.times(scale)
}

/// One axis of `ndc_to_world`.
fn axis_ndc_to_world(q: Scalar, c: Scalar, s: Scalar) -> (w: Scalar)
    requires
        q.wf(),
        c.wf(),
        s.wf(),
        q.bounded(NDC_BOUND as int),
        c.bounded(COORD_BOUND as int),
        s.bounded(COORD_BOUND as int),
    ensures
        axis_world(q, c, s, w),
        w.wf(),
{
    proof {
        lemma_mul_fits(q.num as int, s.num as int, NDC_BOUND as int, COORD_BOUND as int);
        lemma_mul_fits(q.den as int, s.den as int, NDC_BOUND as int, COORD_BOUND as int);
        lemma_mul_fits(
            c.num as int,
            2 * (q.den * s.den),
            COORD_BOUND as int,
            2 * NDC_BOUND as int * COORD_BOUND as int,
        );
        lemma_mul_fits(
            q.num * s.num,
            c.den as int,
            NDC_BOUND as int * COORD_BOUND as int,
            COORD_BOUND as int,
        );
        lemma_mul_fits(
            c.den as int,
            2 * (q.den * s.den),
            COORD_BOUND as int,
            2 * NDC_BOUND as int * COORD_BOUND as int,
        );
        lemma_pos_mul_pos(q.den as int, s.den as int);
    }
    let prod = q.times(s).half();
    c.plus(prod)
}

/// Maps a window pixel to normalized device coordinates for a window of the
/// given size: `ndc_x = (2 * px - width) / width` and, flipping the y axis so
/// that the top-left pixel origin becomes GL's upward-growing y,
/// `ndc_y = (height - 2 * py) / height`.  Pixel `(0, 0)` maps to `(-1, 1)`
/// and the window center maps to `(0, 0)`.
pub fn window_to_ndc(px: i64, py: i64, width: i64, height: i64) -> (ndc: Vec2)
    requires
        0 < width <= COORD_BOUND,
        0 < height <= COORD_BOUND,
        -COORD_BOUND <= px <= COORD_BOUND,
        -COORD_BOUND <= py <= COORD_BOUND,
    ensures
        ndc.x.num == 2 * px - width,
        ndc.x.den == width as int,
        ndc.y.num == height - 2 * py,
        ndc.y.den == height as int,
        ndc.wf(),
        ndc.bounded(NDC_BOUND as int),
{
    let nx = 2 * (px as i128) - (width as i128);
    let ny = (height as i128) - 2 * (py as i128);
    Vec2 {
        x: Scalar { num: nx, den: width as i128 },
        y: Scalar { num: ny, den: height as i128 },
    }
}

/// One axis of the round trip: mapping a world coordinate to NDC and back
/// yields exactly the starting rational value.
proof fn lemma_axis_round_trip(pn: int, pd: int, cn: int, cd: int, sn: int, sd: int)
    by (nonlinear_arith)
    requires
        pd > 0,
        cd > 0,
        sn > 0,
        sd > 0,
    ensures
        ({
            let qn = (pn * cd - cn * pd) * (2 * sd);
            let qd = (pd * cd) * sn;
            let wn = cn * (2 * (qd * sd)) + (qn * sn) * cd;
            let wd = cd * (2 * (qd * sd));
            wn * pd == pn * wd && wd > 0
        }),
{
}

/// One axis of the uniform consistency law: applying the uniform pair the
/// way the shader does, `p * scale + translation`, yields exactly the NDC
/// image of `p`.
proof fn lemma_axis_transform_applies(pn: int, pd: int, cn: int, cd: int, sn: int, sd: int)
    by (nonlinear_arith)
    requires
        pd > 0,
        cd > 0,
        sn > 0,
        sd > 0,
    ensures
        ({
            let an = (pn * (2 * sd)) * (cd * sn) + ((-cn) * (2 * sd)) * (pd * sn);
            let ad = (pd * sn) * (cd * sn);
            let qn = (pn * cd - cn * pd) * (2 * sd);
            let qd = (pd * cd) * sn;
            an * qd == qn * ad && ad > 0
        }),
{
}

/// Numerator of `p * sc + t`, the per-vertex computation the shader
/// performs with the uniform pair `(t, sc)`.
pub open spec fn shader_applied_num(p: Scalar, t: Scalar, sc: Scalar) -> int {
    (p.num * sc.num) * t.den + t.num * (p.den * sc.den)
}

/// Denominator of `p * sc + t`.
pub open spec fn shader_applied_den(p: Scalar, t: Scalar, sc: Scalar) -> int {
    (p.den * sc.den) * t.den
}

/// The uniforms agree with the camera: for every world point `p`, the value
/// the shader computes from the uniform pair, `p * scale + translation`,
/// denotes exactly `world_to_ndc(v, p)`.  Rendering and cursor picking
/// therefore use one and the same transform.
pub proof fn lemma_transformation_matches_world_to_ndc(
    v: CenteredView,
    t: Vec2,
    sc: Vec2,
    p: Vec2,
    q: Vec2,
)
    requires
        v.wf(),
        p.wf(),
        is_transformation(v, t, sc),
        is_world_to_ndc(v, p, q),
    ensures
        shader_applied_num(p.x, t.x, sc.x) * q.x.den == q.x.num * shader_applied_den(p.x, t.x, sc.x),
        shader_applied_num(p.y, t.y, sc.y) * q.y.den == q.y.num * shader_applied_den(p.y, t.y, sc.y),
        shader_applied_den(p.x, t.x, sc.x) > 0,
        shader_applied_den(p.y, t.y, sc.y) > 0,
{
    lemma_axis_transform_applies(
        p.x.num as int,
        p.x.den as int,
        v.center.x.num as int,
        v.center.x.den as int,
        v.size.x.num as int,
        v.size.x.den as int,
    );
    lemma_axis_transform_applies(
        p.y.num as int,
        p.y.den as int,
        v.center.y.num as int,
        v.center.y.den as int,
        v.size.y.num as int,
        v.size.y.den as int,
    );
}

/// The round trip through the camera is the identity: for every well-formed
/// view `v` and point `p`, `ndc_to_world(v, world_to_ndc(v, p))` denotes
/// exactly the same point as `p` — not merely within a tolerance.
pub proof fn lemma_ndc_world_round_trip(v: CenteredView, p: Vec2, q: Vec2, w: Vec2)
    requires
        v.wf(),
        p.wf(),
        is_world_to_ndc(v, p, q),
        is_ndc_to_world(v, q, w),
    ensures
        w.x.ratio_eq(p.x),
        w.y.ratio_eq(p.y),
        w.wf(),
{
    lemma_axis_round_trip(
        p.x.num as int,
        p.x.den as int,
        v.center.x.num as int,
        v.center.x.den as int,
        v.size.x.num as int,
        v.size.x.den as int,
    );
    lemma_axis_round_trip(
        p.y.num as int,
        p.y.den as int,
        v.center.y.num as int,
        v.center.y.den as int,
        v.size.y.num as int,
        v.size.y.den as int,
    );
}

} // verus!
