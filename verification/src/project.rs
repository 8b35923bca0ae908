//! Closest-point projection onto a path.
use vstd::prelude::*;

use crate::path::Path;
use crate::point::{Point, Vector};
use crate::scalar::Scalar;

verus! {

/// Project a query point onto a path to find the nearest position.
///
/// Implementers return the arc-length of the closest point; the provided
/// `closest_point` samples the path there.
pub trait Project: Path {
    /// The outcome of projecting `p`.
    open spec fn spec_project(&self, p: Self::Point) -> Result<Self::Scalar, Self::Error> {
        arbitrary()
    }

    /// Find the arc-length `s` of the point on the path closest to `p`.
    ///
    /// Returns an error when the projection cannot be computed (e.g. a
    /// degenerate path).
    fn project(&self, p: Self::Point) -> (r: Result<Self::Scalar, Self::Error>)
        ensures
            r == self.spec_project(p),
    ;

    /// The closest point on the path to `p`: the sample at the arc-length that
    /// `project` returns, or the projection's error.
    fn closest_point(&self, p: Self::Point) -> (r: Result<Self::Point, Self::Error>)
        ensures
            r == (match self.spec_project(p) {
                Ok(s) => self.spec_sample_at(s),
                Err(e) => Err(e),
            }),
    {
        match self.project(p) {
            Ok(s) => self.sample_at(s),
            Err(e) => Err(e),
        }
    }
}

/// The projection of `q` onto `p` is minimal: where it succeeds, the sample
/// there exists and is no farther from `q` than any other sample of `p` in
/// `[0, length]`.
pub open spec fn projects_to_nearest<P: Project>(p: P, q: P::Point) -> bool {
    p.spec_project(q) matches Ok(s) ==> (p.spec_sample_at(s) matches Ok(x) && forall|
        s2: P::Scalar,
    |
        P::Scalar::spec_zero().spec_le(s2) && s2.spec_le(p.spec_length()) ==> (
        #[trigger] p.spec_sample_at(s2) matches Ok(y) ==> x.spec_displacement(q).spec_norm().spec_le(
            y.spec_displacement(q).spec_norm(),
        )))
}

/// Where the projection is minimal, `closest_point` returns a sample no
/// farther from `q` than any sample of the path in `[0, length]`.
pub proof fn closest_point_is_nearest<P: Project>(p: P, q: P::Point, s2: P::Scalar)
    requires
        projects_to_nearest(p, q),
    ensures
        ({
            let closest = match p.spec_project(q) {
                Ok(s) => p.spec_sample_at(s),
                Err(e) => Err(e),
            };
            closest matches Ok(x) ==> (P::Scalar::spec_zero().spec_le(s2) && s2.spec_le(
                p.spec_length(),
            ) ==> (p.spec_sample_at(s2) matches Ok(y) ==> x.spec_displacement(q).spec_norm().spec_le(
                y.spec_displacement(q).spec_norm(),
            )))
        }),
{
    if p.spec_project(q) is Ok {
        assert(p.spec_sample_at(s2) == p.spec_sample_at(s2));
    }
}

} // verus!
