//! Points and vectors for geometric computations.
//!
//! Points and vectors are kept distinct: a position on a path is a point,
//! while derivatives (tangent, curvature vector) are vectors.
use vstd::prelude::*;

use crate::scalar::Scalar;

verus! {

/// A displacement or derivative in Euclidean space.
///
/// Vectors form a linear space: addition, subtraction and scaling are
/// required, along with the dot product and the Euclidean norm.
pub trait Vector: Copy {
    /// The scalar type used for components and magnitudes.
    type Scalar: Scalar;

    /// The zero vector.
    open spec fn spec_zero() -> Self {
        arbitrary()
    }

    /// Dot product.
    open spec fn spec_dot(self, rhs: Self) -> Self::Scalar {
        arbitrary()
    }

    /// Euclidean norm.
    open spec fn spec_norm(self) -> Self::Scalar {
        arbitrary()
    }

    /// Vector sum.
    open spec fn spec_add(self, rhs: Self) -> Self {
        arbitrary()
    }

    /// Vector difference.
    open spec fn spec_sub(self, rhs: Self) -> Self {
        arbitrary()
    }

    /// The vector scaled by `k`.
    open spec fn spec_scale(self, k: Self::Scalar) -> Self {
        arbitrary()
    }

    /// The zero vector (additive identity).
    fn zero() -> (r: Self)
        ensures
            r == Self::spec_zero(),
    ;

    /// Dot product of two vectors.
    fn dot(self, rhs: Self) -> (r: Self::Scalar)
        ensures
            r == self.spec_dot(rhs),
    ;

    /// Euclidean norm (magnitude) of the vector.
    fn norm(self) -> (r: Self::Scalar)
        ensures
            r == self.spec_norm(),
    ;

    /// Vector sum `self + rhs`.
    fn add(self, rhs: Self) -> (r: Self)
        ensures
            r == self.spec_add(rhs),
    ;

    /// Vector difference `self - rhs`.
    fn sub(self, rhs: Self) -> (r: Self)
        ensures
            r == self.spec_sub(rhs),
    ;

    /// The vector scaled by `k`, i.e. `self * k`.
    fn scale(self, k: Self::Scalar) -> (r: Self)
        ensures
            r == self.spec_scale(k),
    ;
}

/// A position in an affine space.
///
/// Points cannot be added, but the displacement from one point to another is
/// a [`Vector`], and translating a point by a vector yields another point.
pub trait Point: Copy {
    /// Scalar type for distances and coordinates.
    type Scalar: Scalar;

    /// Vector type for displacements and derivatives.
    type Vector: Vector<Scalar = Self::Scalar>;

    /// Displacement from `self` to `other`.
    open spec fn spec_displacement(self, other: Self) -> Self::Vector {
        arbitrary()
    }

    /// `self` translated by `v`.
    open spec fn spec_translate(self, v: Self::Vector) -> Self {
        arbitrary()
    }

    /// Displacement from `self` to `other` (i.e. `other - self`).
    fn displacement(self, other: Self) -> (r: Self::Vector)
        ensures
            r == self.spec_displacement(other),
    ;

    /// Translate this point by a vector, returning a new point.
    fn translate(self, v: Self::Vector) -> (r: Self)
        ensures
            r == self.spec_translate(v),
    ;

    /// Euclidean distance between two points; by default the norm of the
    /// displacement.
    fn distance(self, other: Self) -> (r: Self::Scalar)
        default_ensures
            r == self.spec_displacement(other).spec_norm(),
    {
        self.displacement(other).norm()
    }
}

/// The absolute value `|x|`: `x` when `0 <= x`, and `-x` otherwise.
pub open spec fn abs<S: Scalar>(x: S) -> S {
    if S::spec_zero().spec_le(x) {
        x
    } else {
        x.spec_negate()
    }
}

/// The affine laws of a point type: translating `a` by the displacement to
/// `b` reaches `b`, and the displacement from `a` to `a` translated by `v`
/// is `v`.
pub open spec fn obeys_affine_laws<P: Point>() -> bool {
    &&& forall|a: P, b: P| #[trigger] a.spec_translate(a.spec_displacement(b)) == b
    &&& forall|a: P, v: P::Vector| #[trigger] a.spec_displacement(a.spec_translate(v)) == v
}

/// The laws of the Euclidean norm of a vector type: it is never negative,
/// and scaling a vector by `k` scales its norm by `|k|` (so `(v * 0).norm()`
/// is `0`).
pub open spec fn obeys_norm_laws<V: Vector>() -> bool {
    &&& forall|v: V| V::Scalar::spec_zero().spec_le(#[trigger] v.spec_norm())
    &&& forall|v: V, k: V::Scalar|
        #[trigger] v.spec_scale(k).spec_norm() == abs(k).spec_mul(v.spec_norm())
}

} // verus!
