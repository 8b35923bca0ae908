//! The numeric scalar used for arc-lengths, parameters and distances.
use vstd::prelude::*;

verus! {

/// Negation of a value: the scalar `-x`, or the opposite vector.
///
/// A path's curvature (a scalar in 2D, a vector in 3D) must be negatable for
/// the curvature of a reversed path to be defined.
pub trait Negate: Sized {
    /// The negation of `self`, as a mathematical value.
    open spec fn spec_negate(self) -> Self {
        arbitrary()
    }

    /// Negate `self`.
    fn negate(self) -> (r: Self)
        ensures
            r == self.spec_negate(),
    ;
}

/// A scalar type suitable for arc-length, parameter and distance computations.
///
/// Each operation is given by an executable method and by the spec function
/// of the same name prefixed with `spec_`; the contracts of this crate are
/// stated over the spec functions, so they hold for every implementation of
/// the arithmetic, exact or rounding (floating-point types implement it
/// through a newtype).
pub trait Scalar: Copy + core::fmt::Debug + Negate + 'static {
    /// The additive identity.
    open spec fn spec_zero() -> Self {
        arbitrary()
    }

    /// The multiplicative identity.
    open spec fn spec_one() -> Self {
        arbitrary()
    }

    /// The scalar that stands for the count `n`.
    open spec fn spec_from_usize(n: usize) -> Self {
        arbitrary()
    }

    /// `self + rhs`.
    open spec fn spec_add(self, rhs: Self) -> Self {
        arbitrary()
    }

    /// `self - rhs`.
    open spec fn spec_sub(self, rhs: Self) -> Self {
        arbitrary()
    }

    /// `self * rhs`.
    open spec fn spec_mul(self, rhs: Self) -> Self {
        arbitrary()
    }

    /// `self / rhs`.
    open spec fn spec_div(self, rhs: Self) -> Self {
        arbitrary()
    }

    /// `self <= rhs`.
    open spec fn spec_le(self, rhs: Self) -> bool {
        arbitrary()
    }

    /// `self < rhs`.
    open spec fn spec_lt(self, rhs: Self) -> bool {
        arbitrary()
    }

    /// The additive identity.
    fn zero() -> (r: Self)
        ensures
            r == Self::spec_zero(),
    ;

    /// The multiplicative identity.
    fn one() -> (r: Self)
        ensures
            r == Self::spec_one(),
    ;

    /// Convert a count to a scalar.
    fn from_usize(n: usize) -> (r: Self)
        ensures
            r == Self::spec_from_usize(n),
    ;

    /// `self + rhs`.
    fn add(self, rhs: Self) -> (r: Self)
        ensures
            r == self.spec_add(rhs),
    ;

    /// `self - rhs`.
    fn sub(self, rhs: Self) -> (r: Self)
        ensures
            r == self.spec_sub(rhs),
    ;

    /// `self * rhs`.
    fn mul(self, rhs: Self) -> (r: Self)
        ensures
            r == self.spec_mul(rhs),
    ;

    /// `self / rhs`.
    fn div(self, rhs: Self) -> (r: Self)
        ensures
            r == self.spec_div(rhs),
    ;

    /// `self <= rhs`.
    fn le(self, rhs: Self) -> (r: bool)
        ensures
            r == self.spec_le(rhs),
    ;

    /// `self < rhs`.
    fn lt(self, rhs: Self) -> (r: bool)
        ensures
            r == self.spec_lt(rhs),
    ;
}

/// Negation undoes itself on every value of `T`.
pub open spec fn negation_is_involutive<T: Negate>() -> bool {
    forall|x: T| #[trigger] x.spec_negate().spec_negate() == x
}

/// `S` computes exactly, as an ordered field into which the counts embed:
/// the laws that exact arithmetic (the rationals, say) obeys and that
/// floating point obeys only up to rounding. The laws of this crate that
/// speak of exact positions (the last sample falls at the length, the
/// conversions invert each other, …) are stated for scalars that obey them.
pub open spec fn obeys_exact_arithmetic<S: Scalar>() -> bool {
    let zero = S::spec_zero();
    let one = S::spec_one();
    // counts
    &&& S::spec_from_usize(0) == zero
    &&& forall|k: usize|
        k < usize::MAX ==> #[trigger] S::spec_from_usize((k + 1) as usize) == S::spec_from_usize(
            k,
        ).spec_add(one)
    &&& forall|k: usize| 1 <= k ==> zero.spec_lt(#[trigger] S::spec_from_usize(k))
    // addition and subtraction
    &&& forall|a: S, b: S| #[trigger] a.spec_add(b) == b.spec_add(a)
    &&& forall|a: S, b: S, c: S| #[trigger] a.spec_add(b).spec_add(c) == a.spec_add(b.spec_add(c))
    &&& forall|a: S| #[trigger] a.spec_add(zero) == a
    &&& forall|a: S, b: S| #[trigger] a.spec_sub(b).spec_add(b) == a
    &&& forall|a: S, b: S| #[trigger] a.spec_add(b).spec_sub(b) == a
    &&& forall|a: S| #[trigger] a.spec_negate() == zero.spec_sub(a)
    // multiplication and division
    &&& forall|a: S, b: S| #[trigger] a.spec_mul(b) == b.spec_mul(a)
    &&& forall|a: S| #[trigger] one.spec_mul(a) == a
    &&& forall|a: S| #[trigger] zero.spec_mul(a) == zero
    &&& forall|a: S, b: S, c: S| #[trigger] a.spec_add(b).spec_mul(c) == a.spec_mul(c).spec_add(b.spec_mul(c))
    &&& forall|a: S, b: S| b != zero ==> #[trigger] a.spec_mul(b).spec_div(b) == a
    &&& forall|a: S, b: S| b != zero ==> #[trigger] b.spec_mul(a.spec_div(b)) == a
    // order
    &&& zero.spec_lt(one)
    &&& forall|a: S, b: S| #[trigger] a.spec_lt(b) <==> !b.spec_le(a)
    &&& forall|a: S| #[trigger] a.spec_le(a)
    &&& forall|a: S, b: S| #![trigger a.spec_le(b)] #![trigger b.spec_le(a)] a.spec_le(b) || b.spec_le(a)
    &&& forall|a: S, b: S| a.spec_le(b) && b.spec_le(a) ==> a == b
    &&& forall|a: S, b: S, c: S| #[trigger] a.spec_le(b) && #[trigger] b.spec_le(c) ==> a.spec_le(c)
    &&& forall|a: S, b: S, c: S| #[trigger] a.spec_le(b) ==> #[trigger] a.spec_add(c).spec_le(b.spec_add(c))
    &&& forall|a: S, b: S| zero.spec_le(a) && zero.spec_lt(b) ==> zero.spec_le(#[trigger] a.spec_div(b))
    &&& forall|a: S, b: S| zero.spec_le(a) && zero.spec_le(b) ==> zero.spec_le(#[trigger] a.spec_mul(b))
}

/// Consequences of exact arithmetic used by the laws of this crate:
/// subtracting `0` or a value from itself, and undoing a subtraction.
pub proof fn exact_subtraction_facts<S: Scalar>(a: S, b: S)
    requires
        obeys_exact_arithmetic::<S>(),
    ensures
        a.spec_sub(S::spec_zero()) == a,
        a.spec_sub(a) == S::spec_zero(),
        a.spec_sub(a.spec_sub(b)) == b,
{
    let zero = S::spec_zero();
    let one = S::spec_one();
    // a - 0 == a
    assert(a.spec_add(zero).spec_sub(zero) == a);
    // a - a == 0
    assert(zero.spec_add(a).spec_sub(a) == zero);
    assert(zero.spec_add(a) == a.spec_add(zero));
    // a - (a - b) == b
    let y = a.spec_sub(b);
    assert(y.spec_add(b) == a);
    assert(b.spec_add(y).spec_sub(y) == b);
    assert(b.spec_add(y) == y.spec_add(b));
}

/// With exact arithmetic `-1` lies below `0`, and negating it gives `1`
/// back: so `|-1| == 1`.
pub proof fn minus_one_facts<S: Scalar>()
    requires
        obeys_exact_arithmetic::<S>(),
    ensures
        !S::spec_zero().spec_le(S::spec_one().spec_negate()),
        S::spec_one().spec_negate().spec_negate() == S::spec_one(),
{
    let zero = S::spec_zero();
    let one = S::spec_one();
    let m = one.spec_negate();
    assert(m == zero.spec_sub(one));
    assert(m.spec_add(one) == zero);
    if zero.spec_le(m) {
        assert(zero.spec_add(one).spec_le(m.spec_add(one)));
        assert(zero.spec_add(one) == one);
        assert(one.spec_le(zero));
        assert(false);
    }
    assert(m.spec_negate() == zero.spec_sub(m));
    assert(one.spec_add(m).spec_sub(m) == one);
    assert(one.spec_add(m) == m.spec_add(one));
}

} // verus!
