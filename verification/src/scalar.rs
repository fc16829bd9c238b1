//! Exact rational scalars.
//!
//! Every coordinate in this crate (world positions, normalized device
//! coordinates, color components) is a rational number `num / den` with a
//! positive denominator.  Working with exact rationals lets the camera
//! transform algebra be proved as exact identities rather than within a
//! floating-point tolerance; the GL backend converts to floats only at the
//! very edge, when a command is executed.

use vstd::prelude::*;

verus! {

/// Largest magnitude allowed for the numerator and the denominator of the
/// coordinates handed to the transform functions (2^20, about a million
/// world units).  Keeping inputs inside this range guarantees that every
/// intermediate product of the transform algebra fits in an `i128`.
pub const COORD_BOUND: i128 = 1048576;

/// Magnitude bound that holds of every normalized-device-coordinate value
/// produced by the transforms in this crate (2^62).  Values bounded by it can
/// still be mapped back to world space without overflow.
pub const NDC_BOUND: i128 = 4611686018427387904;

/// An exact rational number `num / den` with `den > 0`.
#[derive(Clone, Copy, Debug, PartialEq, Eq, Structural)]
pub struct Scalar {
    pub num: i128,
    pub den: i128,
}

impl Scalar {
    /// Well-formed: the denominator is positive.
    pub open spec fn wf(self) -> bool {
        self.den > 0
    }

    /// The numerator magnitude and the denominator are both at most `b`.
    pub open spec fn bounded(self, b: int) -> bool {
        &&& -b <= self.num <= b
        &&& 0 < self.den <= b
    }

    /// `self` and `other` denote the same rational number.
    pub open spec fn ratio_eq(self, other: Scalar) -> bool {
        self.num * other.den == other.num * self.den
    }

    /// The integer `n` as a scalar.
    pub fn from_int(n: i64) -> (r: Scalar)
        ensures
            r.num == n as int,
            r.den == 1,
            r.wf(),
            -COORD_BOUND <= n <= COORD_BOUND ==> r.bounded(COORD_BOUND as int),
    {
        Scalar { num: n as i128, den: 1 }
    }

    /// Exact sum of two rationals.
    pub fn plus(self, other: Scalar) -> (r: Scalar)
        requires
            self.wf(),
            other.wf(),
            i128::MIN <= self.num * other.den <= i128::MAX,
            i128::MIN <= other.num * self.den <= i128::MAX,
            i128::MIN <= self.num * other.den + other.num * self.den <= i128::MAX,
            self.den * other.den <= i128::MAX,
        ensures
            r.num == self.num * other.den + other.num * self.den,
            r.den == self.den * other.den,
            r.wf(),
    {
        proof {
            lemma_pos_mul_pos(self.den as int, other.den as int);
        }
        Scalar {
            num: self.num * other.den + other.num * self.den,
            den: self.den * other.den,
        }
    }

    /// Exact difference of two rationals.
    pub fn minus(self, other: Scalar) -> (r: Scalar)
        requires
            self.wf(),
            other.wf(),
            i128::MIN <= self.num * other.den <= i128::MAX,
            i128::MIN <= other.num * self.den <= i128::MAX,
            i128::MIN <= self.num * other.den - other.num * self.den <= i128::MAX,
            self.den * other.den <= i128::MAX,
        ensures
            r.num == self.num * other.den - other.num * self.den,
            r.den == self.den * other.den,
            r.wf(),
    {
        proof {
            lemma_pos_mul_pos(self.den as int, other.den as int);
        }
        Scalar {
            num: self.num * other.den - other.num * self.den,
            den: self.den * other.den,
        }
    }

    /// Exact product of two rationals.
    pub fn times(self, other: Scalar) -> (r: Scalar)
        requires
            self.wf(),
            other.wf(),
            i128::MIN <= self.num * other.num <= i128::MAX,
            self.den * other.den <= i128::MAX,
        ensures
            r.num == self.num * other.num,
            r.den == self.den * other.den,
            r.wf(),
    {
        proof {
            lemma_pos_mul_pos(self.den as int, other.den as int);
        }
        Scalar {
            num: self.num * other.num,
            den: self.den * other.den,
        }
    }

    /// Exact negation.
    pub fn neg(self) -> (r: Scalar)
        requires
            self.wf(),
            self.num > i128::MIN,
        ensures
            r.num == -self.num,
            r.den == self.den,
            r.wf(),
    {
        Scalar { num: -self.num, den: self.den }
    }

    /// Exact half of a rational.
    pub fn half(self) -> (r: Scalar)
        requires
            self.wf(),
            2 * self.den <= i128::MAX,
        ensures
            r.num == self.num,
            r.den == 2 * self.den,
            r.wf(),
    {
        Scalar { num: self.num, den: 2 * self.den }
    }

    /// Decides whether `self` and `other` denote the same rational number.
    pub fn same_ratio(self, other: Scalar) -> (r: bool)
        requires
            i128::MIN <= self.num * other.den <= i128::MAX,
            i128::MIN <= other.num * self.den <= i128::MAX,
        ensures
            r == self.ratio_eq(other),
    {
        self.num * other.den == other.num * self.den
    }
}

/// The product of two positive integers is positive.
pub proof fn lemma_pos_mul_pos(a: int, b: int)
    by (nonlinear_arith)
    requires
        a > 0,
        b > 0,
    ensures
        a * b > 0,
{
}

/// A product of values bounded by `m` and `n` is bounded by `m * n`; in
/// particular it fits in an `i128` whenever `m * n` does.
pub proof fn lemma_mul_fits(a: int, b: int, m: int, n: int)
    by (nonlinear_arith)
    requires
        -m <= a <= m,
        -n <= b <= n,
        0 <= m,
        0 <= n,
        m * n <= i128::MAX,
    ensures
        -(m * n) <= a * b <= m * n,
        i128::MIN <= a * b <= i128::MAX,
{
}

} // verus!
