//! Offset a path by a constant distance.
//!
//! [`Offset`] wraps a path and displaces every sampled point by a fixed
//! distance. It requires the inner path to implement [`Tangent`] and
//! [`Heading`].
use vstd::prelude::*;

use crate::differential::{has_unit_tangent, Heading, Tangent};
use crate::path::Path;
use crate::point::{abs, obeys_affine_laws, obeys_norm_laws, Point, Vector};
use crate::scalar::{obeys_exact_arithmetic, Scalar};

verus! {

/// A path displaced by a constant distance from the original.
///
/// Every sampled point is shifted by `distance` units along the unit tangent
/// at that arc-length, so the length of the path is unchanged. (An offset
/// along the surface normal, heading + π/2, would produce the parallel curve
/// in 2D; the tangent direction is what this adapter uses.)
pub struct Offset<P, S> {
    /// The inner path being offset.
    inner: P,
    /// The constant offset distance.
    distance: S,
}

impl<P, S> Offset<P, S> {
    /// The inner path.
    pub closed spec fn inner(&self) -> P {
        self.inner
    }

    /// The offset distance.
    pub closed spec fn distance(&self) -> S {
        self.distance
    }

    /// Create a new offset path.
    ///
    /// The `distance` is in the same units as the path's scalar type.
    pub fn new(inner: P, distance: S) -> (r: Self)
        ensures
            r.inner() == inner,
            r.distance() == distance,
    {
        Self { inner, distance }
    }
}

impl<P: Path + Tangent + Heading> Path for Offset<P, P::Scalar> {
    type Scalar = P::Scalar;
    type Point = P::Point;
    type Error = P::Error;

    open spec fn spec_length(&self) -> P::Scalar {
        self.inner().spec_length()
    }

    open spec fn spec_sample_at(&self, s: P::Scalar) -> Result<P::Point, P::Error> {
        match self.inner().spec_sample_at(s) {
            Ok(pos) => match self.inner().spec_tangent_at(s) {
                Ok(tan) => Ok(pos.spec_translate(tan.spec_scale(self.distance()))),
                Err(e) => Err(e),
            },
            Err(e) => Err(e),
        }
    }

    fn length(&self) -> P::Scalar {
        self.inner.length()
    }

    fn sample_at(&self, s: P::Scalar) -> Result<P::Point, P::Error> {
        match self.inner.sample_at(s) {
            Ok(pos) => match self.inner.tangent_at(s) {
                Ok(tan) => {
                    let offset_vec = tan.scale(self.distance);
                    Ok(pos.translate(offset_vec))
                },
                Err(e) => Err(e),
            },
            Err(e) => Err(e),
        }
    }
}

/// An offset path has the length of its inner path, and where both the
/// inner sample and tangent at `s` exist, its sample is the inner sample
/// translated by the tangent scaled by the offset distance.
pub proof fn offset_length_and_samples<P: Path + Tangent + Heading>(o: Offset<P, P::Scalar>, s: P::Scalar)
    ensures
        o.spec_length() == o.inner().spec_length(),
        o.inner().spec_sample_at(s) matches Ok(pos) ==> (o.inner().spec_tangent_at(s) matches Ok(
            tan,
        ) ==> o.spec_sample_at(s) == Ok::<P::Point, P::Error>(
            pos.spec_translate(tan.spec_scale(o.distance())),
        )),
{
}

/// An offset path samples successfully at `s` exactly where the inner path
/// has both a sample and a tangent at `s`. Otherwise it passes the inner
/// path's error on unchanged: the inner sample's error where that sample
/// fails, and else the inner tangent's error.
pub proof fn offset_passes_errors_on<P: Path + Tangent + Heading>(o: Offset<P, P::Scalar>, s: P::Scalar)
    ensures
        o.spec_sample_at(s) is Ok <==> (o.inner().spec_sample_at(s) is Ok
            && o.inner().spec_tangent_at(s) is Ok),
        o.inner().spec_sample_at(s) matches Err(e) ==> o.spec_sample_at(s) == Err::<
            P::Point,
            P::Error,
        >(e),
        o.inner().spec_sample_at(s) is Ok ==> (o.inner().spec_tangent_at(s) matches Err(e)
            ==> o.spec_sample_at(s) == Err::<P::Point, P::Error>(e)),
{
}

/// Where the inner path has a unit tangent at `s`, the point and vector
/// types obey the affine and norm laws, and the arithmetic is exact, the
/// offset sample at `s` lies exactly `|distance|` away from the inner sample.
pub proof fn offset_moves_by_distance<P: Path + Tangent + Heading>(o: Offset<P, P::Scalar>, s: P::Scalar)
    requires
        obeys_exact_arithmetic::<P::Scalar>(),
        obeys_affine_laws::<P::Point>(),
        obeys_norm_laws::<<P::Point as Point>::Vector>(),
        has_unit_tangent(o.inner(), s),
    ensures
        o.inner().spec_sample_at(s) matches Ok(q) ==> (o.inner().spec_tangent_at(s) is Ok ==> (
        o.spec_sample_at(s) matches Ok(r) && q.spec_displacement(r).spec_norm() == abs(
            o.distance(),
        ))),
{
    if let Ok(q) = o.inner().spec_sample_at(s) {
        if let Ok(t) = o.inner().spec_tangent_at(s) {
            let v = t.spec_scale(o.distance());
            assert(q.spec_displacement(q.spec_translate(v)) == v);
            assert(v.spec_norm() == abs(o.distance()).spec_mul(t.spec_norm()));
            assert(abs(o.distance()).spec_mul(P::Scalar::spec_one()) == P::Scalar::spec_one().spec_mul(
                abs(o.distance()),
            ));
        }
    }
}

} // verus!
