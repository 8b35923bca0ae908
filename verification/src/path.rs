//! Core traits for parametric curves.
//!
//! - [`Path`]: arc-length-parameterized curves, with `length()`,
//!   `sample_at(s)`, and the provided `start()`, `end()`, `domain()`.
//! - [`ParametricPath`]: sampling by a normalized parameter `t ∈ [0, 1]`, with
//!   the conversions `t_to_s` / `s_to_t`.
use vstd::prelude::*;

use core::ops::RangeInclusive;

use crate::error::PathError;
use crate::point::Point;
use crate::scalar::{exact_subtraction_facts, obeys_exact_arithmetic, Scalar};

verus! {

/// A curve that can be sampled by arc-length `s`.
///
/// Every path has a total `length`, and `sample_at(s)` returns a point for
/// `s ∈ [0, length]`. The provided `start()` and `end()` are the samples at
/// `0` and at `length`; `domain()` is `[0, length]`.
pub trait Path {
    /// The scalar type for arc-length, parameter and distance computations.
    type Scalar: Scalar;
    /// The point type representing positions on the path.
    type Point: Point<Scalar = Self::Scalar>;
    /// The error type for fallible operations; convertible from [`PathError`].
    type Error: From<PathError<Self::Scalar>>;

    /// Total arc-length.
    open spec fn spec_length(&self) -> Self::Scalar {
        arbitrary()
    }

    /// The outcome of sampling at arc-length `s`.
    open spec fn spec_sample_at(&self, s: Self::Scalar) -> Result<Self::Point, Self::Error> {
        arbitrary()
    }

    /// Total arc-length of the path.
    fn length(&self) -> (r: Self::Scalar)
        ensures
            r == self.spec_length(),
    ;

    /// Sample the path at arc-length `s ∈ [0, length]`.
    ///
    /// Returns an error when `s` is outside the valid domain.
    fn sample_at(&self, s: Self::Scalar) -> (r: Result<Self::Point, Self::Error>)
        ensures
            r == self.spec_sample_at(s),
    ;

    /// The start point of the path: the sample at arc-length `0`.
    fn start(&self) -> (r: Result<Self::Point, Self::Error>)
        ensures
            r == self.spec_sample_at(Self::Scalar::spec_zero()),
    {
        self.sample_at(Self::Scalar::zero())
    }

    /// The end point of the path: the sample at arc-length `length`.
    fn end(&self) -> (r: Result<Self::Point, Self::Error>)
        ensures
            r == self.spec_sample_at(self.spec_length()),
    {
        self.sample_at(self.length())
    }

    /// The valid domain for arc-length sampling: `[0, length]`.
    fn domain(&self) -> (r: RangeInclusive<Self::Scalar>)
        ensures
            r@.start == Self::Scalar::spec_zero(),
            r@.end == self.spec_length(),
            !r@.exhausted,
    {
        Self::Scalar::zero()..=self.length()
    }
}

/// A curve that also supports sampling by a normalized parameter `t ∈ [0, 1]`.
///
/// The provided `t_to_s` and `s_to_t` use the linear conversion
/// `s = t * length`, which is exact only for arc-length-parameterized paths;
/// implementers may override them with exact conversions.
pub trait ParametricPath: Path {
    /// The outcome of sampling at normalized parameter `t`.
    open spec fn spec_sample_t(&self, t: Self::Scalar) -> Result<Self::Point, Self::Error> {
        arbitrary()
    }

    /// Sample the path at normalized parameter `t ∈ [0, 1]`.
    ///
    /// Returns an error when `t` is outside the valid domain.
    fn sample_t(&self, t: Self::Scalar) -> (r: Result<Self::Point, Self::Error>)
        ensures
            r == self.spec_sample_t(t),
    ;

    /// Convert normalized parameter `t` to arc-length `s`; by default `t * length()`.
    fn t_to_s(&self, t: Self::Scalar) -> (r: Self::Scalar)
        default_ensures
            r == t.spec_mul(self.spec_length()),
    {
        t.mul(self.length())
    }

    /// Convert arc-length `s` to normalized parameter `t`; by default `s / length()`.
    fn s_to_t(&self, s: Self::Scalar) -> (r: Self::Scalar)
        default_ensures
            r == s.spec_div(self.spec_length()),
    {
        s.div(self.length())
    }
}

/// The default conversions `t_to_s(t) = t * length` and
/// `s_to_t(s) = s / length`, with exact arithmetic: `t = 0` goes to `s = 0`
/// and `t = 1` to `s = length`; for a non-zero length `s_to_t` sends `0` to
/// `0` and `length` to `1`, and undoes `t_to_s`.
pub proof fn default_conversions_invert<P: ParametricPath>(p: P, t: P::Scalar)
    requires
        obeys_exact_arithmetic::<P::Scalar>(),
    ensures
        ({
            let len = p.spec_length();
            let zero = P::Scalar::spec_zero();
            let one = P::Scalar::spec_one();
            &&& zero.spec_mul(len) == zero
            &&& one.spec_mul(len) == len
            &&& len != zero ==> {
                &&& zero.spec_div(len) == zero
                &&& len.spec_div(len) == one
                &&& t.spec_mul(len).spec_div(len) == t
            }
        }),
{
    let len = p.spec_length();
    let zero = P::Scalar::spec_zero();
    let one = P::Scalar::spec_one();
    assert(zero.spec_mul(len) == zero);
    assert(one.spec_mul(len) == len);
    if len != zero {
        assert(zero.spec_mul(len).spec_div(len) == zero);
        assert(one.spec_mul(len).spec_div(len) == one);
    }
}

/// `p` samples successfully exactly on its domain `[0, length]`, as a
/// path that reports `OutOfDomain` for every other arc-length does.
pub open spec fn succeeds_exactly_on_domain<P: Path>(p: P) -> bool {
    forall|s: P::Scalar|
        #[trigger] p.spec_sample_at(s) is Ok <==> (P::Scalar::spec_zero().spec_le(s) && s.spec_le(
            p.spec_length(),
        ))
}

/// The default conversion `t_to_s(t) = t * length`, with exact arithmetic
/// and `0 <= length`, never decreases as `t` grows.
pub proof fn default_t_to_s_rises<P: ParametricPath>(p: P, t1: P::Scalar, t2: P::Scalar)
    requires
        obeys_exact_arithmetic::<P::Scalar>(),
        P::Scalar::spec_zero().spec_le(p.spec_length()),
        t1.spec_le(t2),
    ensures
        t1.spec_mul(p.spec_length()).spec_le(t2.spec_mul(p.spec_length())),
{
    let zero = P::Scalar::spec_zero();
    let len = p.spec_length();
    let d = t2.spec_sub(t1);
    exact_subtraction_facts(t1, t1);
    assert(d.spec_add(t1) == t2);
    if !zero.spec_le(d) {
        assert(d.spec_le(zero));
        assert(d.spec_add(t1).spec_le(zero.spec_add(t1)));
        assert(zero.spec_add(t1) == t1.spec_add(zero));
        assert(t2 == t1);
        assert(t1.spec_sub(t1) == zero);
    }
    assert(zero.spec_le(d.spec_mul(len)));
    assert(d.spec_add(t1).spec_mul(len) == d.spec_mul(len).spec_add(t1.spec_mul(len)));
    let a = t1.spec_mul(len);
    assert(zero.spec_add(a).spec_le(d.spec_mul(len).spec_add(a)));
    assert(zero.spec_add(a) == a.spec_add(zero));
}

/// `sample_t(0)` is the path's start and `sample_t(1)` its end, as the
/// documentation of [`ParametricPath`] asks of every implementation.
pub open spec fn samples_t_at_ends<P: ParametricPath>(p: P) -> bool {
    &&& p.spec_sample_t(P::Scalar::spec_zero()) == p.spec_sample_at(P::Scalar::spec_zero())
    &&& p.spec_sample_t(P::Scalar::spec_one()) == p.spec_sample_at(p.spec_length())
}

} // verus!
