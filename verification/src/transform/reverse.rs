//! Traverse a path in the reverse direction.
//!
//! [`Reverse`] samples its inner path backwards: `sample_at(s)` is the inner
//! path's sample at `length - s`. Tangent vectors are negated and (signed)
//! curvature is negated.
use vstd::prelude::*;

use crate::differential::{has_unit_tangent, Curved, Tangent};
use crate::path::Path;
use crate::point::{abs, obeys_norm_laws, Point, Vector};
use crate::scalar::{
    exact_subtraction_facts, minus_one_facts, negation_is_involutive, obeys_exact_arithmetic, Negate,
    Scalar,
};

verus! {

/// A path traversed in the opposite direction.
///
/// Sampling at arc-length `s` returns the position the inner path has at
/// `length - s`. Tangent vectors are negated; signed curvature is negated.
pub struct Reverse<P> {
    /// The inner path being reversed.
    inner: P,
}

impl<P> Reverse<P> {
    /// The inner path.
    pub closed spec fn inner(&self) -> P {
        self.inner
    }

    /// Create a new reversed path.
    pub fn new(inner: P) -> (r: Self)
        ensures
            r.inner() == inner,
    {
        Self { inner }
    }
}

impl<P: Path> Path for Reverse<P> {
    type Scalar = P::Scalar;
    type Point = P::Point;
    type Error = P::Error;

    open spec fn spec_length(&self) -> P::Scalar {
        self.inner().spec_length()
    }

    open spec fn spec_sample_at(&self, s: P::Scalar) -> Result<P::Point, P::Error> {
        self.inner().spec_sample_at(self.inner().spec_length().spec_sub(s))
    }

    fn length(&self) -> P::Scalar {
        self.inner.length()
    }

    fn sample_at(&self, s: P::Scalar) -> Result<P::Point, P::Error> {
        self.inner.sample_at(self.inner.length().sub(s))
    }
}

impl<P: Tangent> Tangent for Reverse<P> {
    open spec fn spec_tangent_at(&self, s: P::Scalar) -> Result<
        <P::Point as Point>::Vector,
        P::Error,
    > {
        match self.inner().spec_tangent_at(self.inner().spec_length().spec_sub(s)) {
            Ok(t) => Ok(t.spec_scale(P::Scalar::spec_one().spec_negate())),
            Err(e) => Err(e),
        }
    }

    fn tangent_at(&self, s: P::Scalar) -> Result<<P::Point as Point>::Vector, P::Error> {
        match self.inner.tangent_at(self.inner.length().sub(s)) {
            Ok(t) => {
                let neg_one = P::Scalar::one().negate();
                Ok(t.scale(neg_one))
            },
            Err(e) => Err(e),
        }
    }
}

impl<P: Curved> Curved for Reverse<P> where P::Curvature: Negate {
    type Curvature = P::Curvature;

    open spec fn spec_curvature_at(&self, s: P::Scalar) -> Result<P::Curvature, P::Error> {
        match self.inner().spec_curvature_at(self.inner().spec_length().spec_sub(s)) {
            Ok(k) => Ok(k.spec_negate()),
            Err(e) => Err(e),
        }
    }

    fn curvature_at(&self, s: P::Scalar) -> Result<P::Curvature, P::Error> {
        match self.inner.curvature_at(self.inner.length().sub(s)) {
            Ok(k) => Ok(k.negate()),
            Err(e) => Err(e),
        }
    }
}

/// A reversed path has the length of its inner path.
pub proof fn reverse_keeps_length<P: Path>(r: Reverse<P>)
    ensures
        r.spec_length() == r.inner().spec_length(),
{
}

/// A reversed path samples at `s` what the inner path samples at
/// `length - s`, the error included, with the same length.
pub proof fn reverse_samples_backwards<P: Path>(r: Reverse<P>, s: P::Scalar)
    ensures
        r.spec_length() == r.inner().spec_length(),
        r.spec_sample_at(s) == r.inner().spec_sample_at(r.inner().spec_length().spec_sub(s)),
{
}

/// The tangent of a reversed path at `s` is the inner tangent at
/// `length - s` scaled by `-1`; where the inner tangent fails, that same
/// error is passed on.
pub proof fn reverse_tangent_backwards<P: Tangent>(r: Reverse<P>, s: P::Scalar)
    ensures
        ({
            let q = r.inner().spec_length().spec_sub(s);
            &&& r.spec_tangent_at(s) is Ok <==> r.inner().spec_tangent_at(q) is Ok
            &&& r.inner().spec_tangent_at(q) matches Ok(t) ==> r.spec_tangent_at(s) == Ok::<
                <P::Point as Point>::Vector,
                P::Error,
            >(t.spec_scale(P::Scalar::spec_one().spec_negate()))
            &&& r.inner().spec_tangent_at(q) matches Err(e) ==> r.spec_tangent_at(s) == Err::<
                <P::Point as Point>::Vector,
                P::Error,
            >(e)
        }),
{
}

/// The curvature of a reversed path at `s` is the negated inner curvature
/// at `length - s`; where the inner curvature fails, that same error is
/// passed on.
pub proof fn reverse_curvature_backwards<P: Curved>(r: Reverse<P>, s: P::Scalar) where
    P::Curvature: Negate,

    ensures
        ({
            let q = r.inner().spec_length().spec_sub(s);
            &&& r.spec_curvature_at(s) is Ok <==> r.inner().spec_curvature_at(q) is Ok
            &&& r.inner().spec_curvature_at(q) matches Ok(k) ==> r.spec_curvature_at(s) == Ok::<
                P::Curvature,
                P::Error,
            >(k.spec_negate())
            &&& r.inner().spec_curvature_at(q) matches Err(e) ==> r.spec_curvature_at(s) == Err::<
                P::Curvature,
                P::Error,
            >(e)
        }),
{
}

/// Reversing twice samples the original path at `length - (length - s)`; where
/// that subtraction gives `s` back exactly, the doubly reversed path samples
/// exactly as the original does.
pub proof fn reverse_twice_samples<P: Path>(rr: Reverse<Reverse<P>>, s: P::Scalar)
    ensures
        rr.spec_length() == rr.inner().inner().spec_length(),
        ({
            let p = rr.inner().inner();
            let len = p.spec_length();
            &&& rr.spec_sample_at(s) == p.spec_sample_at(len.spec_sub(len.spec_sub(s)))
            &&& len.spec_sub(len.spec_sub(s)) == s ==> rr.spec_sample_at(s) == p.spec_sample_at(s)
        }),
{
}

/// The start of a reversed path is the end of the original, and its end is
/// the original's start, wherever `length - 0 == length` and
/// `length - length == 0` hold for the scalar.
pub proof fn reverse_swaps_ends<P: Path>(r: Reverse<P>)
    ensures
        ({
            let p = r.inner();
            let len = p.spec_length();
            let zero = P::Scalar::spec_zero();
            &&& r.spec_sample_at(zero) == p.spec_sample_at(len.spec_sub(zero))
            &&& len.spec_sub(zero) == len ==> r.spec_sample_at(zero) == p.spec_sample_at(len)
            &&& len.spec_sub(len) == zero ==> r.spec_sample_at(r.spec_length()) == p.spec_sample_at(
                zero,
            )
        }),
{
}

/// The tangent of a reversed path at `length - s` is the original tangent at
/// `s` scaled by `-1`, wherever `length - (length - s) == s`.
pub proof fn reverse_negates_tangent<P: Tangent>(r: Reverse<P>, s: P::Scalar)
    ensures
        ({
            let p = r.inner();
            let len = p.spec_length();
            len.spec_sub(len.spec_sub(s)) == s ==> r.spec_tangent_at(len.spec_sub(s)) == match p.spec_tangent_at(s) {
                Ok(t) => Ok(t.spec_scale(P::Scalar::spec_one().spec_negate())),
                Err(e) => Err(e),
            }
        }),
{
}

/// The curvature of a reversed path at `length - s` is the negated original
/// curvature at `s`, wherever `length - (length - s) == s`.
pub proof fn reverse_negates_curvature<P: Curved>(r: Reverse<P>, s: P::Scalar) where
    P::Curvature: Negate,

    ensures
        ({
            let p = r.inner();
            let len = p.spec_length();
            len.spec_sub(len.spec_sub(s)) == s ==> r.spec_curvature_at(len.spec_sub(s)) == match p.spec_curvature_at(s) {
                Ok(k) => Ok(k.spec_negate()),
                Err(e) => Err(e),
            }
        }),
{
}

/// Reversing twice gives back the original curvature at `s`, wherever
/// `length - (length - s) == s` and negating a curvature twice gives it back.
pub proof fn reverse_twice_curvature<P: Curved>(rr: Reverse<Reverse<P>>, s: P::Scalar) where
    P::Curvature: Negate,

    requires
        negation_is_involutive::<P::Curvature>(),
        ({
            let len = rr.inner().inner().spec_length();
            len.spec_sub(len.spec_sub(s)) == s
        }),
    ensures
        rr.spec_curvature_at(s) == rr.inner().inner().spec_curvature_at(s),
{
    let p = rr.inner().inner();
    if let Ok(k) = p.spec_curvature_at(s) {
        assert(k.spec_negate().spec_negate() == k);
    }
}

/// With exact arithmetic a reversed path starts where the original ends and
/// ends where the original starts.
pub proof fn reverse_swaps_ends_exactly<P: Path>(r: Reverse<P>)
    requires
        obeys_exact_arithmetic::<P::Scalar>(),
    ensures
        r.spec_sample_at(P::Scalar::spec_zero()) == r.inner().spec_sample_at(r.inner().spec_length()),
        r.spec_sample_at(r.spec_length()) == r.inner().spec_sample_at(P::Scalar::spec_zero()),
{
    exact_subtraction_facts(r.inner().spec_length(), r.inner().spec_length());
}

/// With exact arithmetic reversing twice samples exactly as the original
/// path does, at every arc-length.
pub proof fn reverse_twice_samples_exactly<P: Path>(rr: Reverse<Reverse<P>>, s: P::Scalar)
    requires
        obeys_exact_arithmetic::<P::Scalar>(),
    ensures
        rr.spec_sample_at(s) == rr.inner().inner().spec_sample_at(s),
{
    exact_subtraction_facts(rr.inner().inner().spec_length(), s);
}

/// With exact arithmetic and a curvature whose negation undoes itself,
/// reversing twice gives back the original curvature at every arc-length.
pub proof fn reverse_twice_curvature_exactly<P: Curved>(rr: Reverse<Reverse<P>>, s: P::Scalar) where
    P::Curvature: Negate,

    requires
        obeys_exact_arithmetic::<P::Scalar>(),
        negation_is_involutive::<P::Curvature>(),
    ensures
        rr.spec_curvature_at(s) == rr.inner().inner().spec_curvature_at(s),
{
    exact_subtraction_facts(rr.inner().inner().spec_length(), s);
    reverse_twice_curvature(rr, s);
}

/// With exact arithmetic and a vector type that obeys the norm laws, a
/// reversed path has a unit tangent at `s` wherever the original has one at
/// `length - s` (the reversed tangent is the original one scaled by `-1`, so
/// it points the other way).
pub proof fn reverse_keeps_unit_tangent<P: Tangent>(r: Reverse<P>, s: P::Scalar)
    requires
        obeys_exact_arithmetic::<P::Scalar>(),
        obeys_norm_laws::<<P::Point as Point>::Vector>(),
        has_unit_tangent(r.inner(), r.inner().spec_length().spec_sub(s)),
    ensures
        has_unit_tangent(r, s),
{
    let one = P::Scalar::spec_one();
    let m = one.spec_negate();
    minus_one_facts::<P::Scalar>();
    assert(abs(m) == one);
    if let Ok(t) = r.inner().spec_tangent_at(r.inner().spec_length().spec_sub(s)) {
        assert(t.spec_scale(m).spec_norm() == abs(m).spec_mul(t.spec_norm()));
        assert(one.spec_mul(one) == one);
    }
}

} // verus!
