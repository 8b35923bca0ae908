//! Differential geometry queries for paths.
//!
//! - [`Tangent`]: unit tangent vector at any arc-length
//! - [`Heading`]: planar heading angle (radians) at any arc-length
//! - [`Curved`]: curvature (scalar in 2D, vector in 3D) at any arc-length
//! - [`FrenetFrame`]: full Frenet–Serret frame (T, N[, B]) at any arc-length
//! - [`BishopFrame`]: rotation-minimizing (Bishop) frames along a path
use vstd::prelude::*;

use crate::path::Path;
use crate::point::{Point, Vector};
use crate::scalar::Scalar;

verus! {

/// Query the unit tangent vector at any point along a path.
///
/// The returned vector is unit-length and points in the direction of
/// increasing arc-length.
pub trait Tangent: Path {
    /// The outcome of the tangent query at arc-length `s`.
    open spec fn spec_tangent_at(&self, s: Self::Scalar) -> Result<
        <Self::Point as Point>::Vector,
        Self::Error,
    > {
        arbitrary()
    }

    /// Unit tangent vector at arc-length `s`.
    ///
    /// Returns an error when `s` is outside the domain or the path is not
    /// differentiable at `s`.
    fn tangent_at(&self, s: Self::Scalar) -> (r: Result<<Self::Point as Point>::Vector, Self::Error>)
        ensures
            r == self.spec_tangent_at(s),
    ;
}

/// Query the planar heading angle at any point along a path.
///
/// Heading is meaningful only for 2D paths, where it is the angle (in
/// radians, counter-clockwise from the positive x-axis) of the tangent.
pub trait Heading: Path {
    /// The outcome of the heading query at arc-length `s`.
    open spec fn spec_heading_at(&self, s: Self::Scalar) -> Result<Self::Scalar, Self::Error> {
        arbitrary()
    }

    /// Planar heading angle (radians) at arc-length `s`.
    ///
    /// Returns an error when `s` is outside the domain or the heading is
    /// undefined at this point.
    fn heading_at(&self, s: Self::Scalar) -> (r: Result<Self::Scalar, Self::Error>)
        ensures
            r == self.spec_heading_at(s),
    ;
}

/// Query the curvature at any point along a path.
///
/// In 2D the curvature is a signed scalar (positive for left turns, negative
/// for right turns). In 3D it is a curvature vector (`κ · N`).
pub trait Curved: Path {
    /// The type representing curvature (scalar in 2D, vector in 3D).
    type Curvature;

    /// The outcome of the curvature query at arc-length `s`.
    open spec fn spec_curvature_at(&self, s: Self::Scalar) -> Result<Self::Curvature, Self::Error> {
        arbitrary()
    }

    /// Curvature at arc-length `s`.
    ///
    /// Returns an error when `s` is outside the domain or curvature is
    /// undefined at this point.
    fn curvature_at(&self, s: Self::Scalar) -> (r: Result<Self::Curvature, Self::Error>)
        ensures
            r == self.spec_curvature_at(s),
    ;
}

/// Query the full Frenet frame (T, N[, B]) at any point along a path.
///
/// In 2D the frame consists of the tangent and normal. In 3D it additionally
/// includes the binormal.
pub trait FrenetFrame: Tangent + Curved {
    /// Frame type, e.g. `(Tangent, Normal)` in 2D or `(T, N, B)` in 3D.
    type Frame;

    /// The outcome of the frame query at arc-length `s`.
    open spec fn spec_frame_at(&self, s: Self::Scalar) -> Result<Self::Frame, Self::Error> {
        arbitrary()
    }

    /// Frenet frame at arc-length `s`.
    ///
    /// Returns an error when `s` is outside the domain or the frame cannot be
    /// computed (e.g. zero curvature in 3D).
    fn frame_at(&self, s: Self::Scalar) -> (r: Result<Self::Frame, Self::Error>)
        ensures
            r == self.spec_frame_at(s),
    ;
}

/// Rotation-minimizing (Bishop) frame along a path.
///
/// Unlike [`FrenetFrame`], a Bishop frame is not a pointwise query: it depends
/// on an initial frame (the seed) and on parallel transport along the curve.
/// Implementations therefore produce an ordered sequence of frames at the
/// given arc-length samples, starting from an explicit seed. Two consumers
/// querying the same `s` with different seeds receive different frames: the
/// family of rotation-minimizing frames has one degree of freedom (the
/// initial roll about the tangent).
///
/// The samples must be monotonically non-decreasing arc-length values;
/// implementations may report out-of-order samples with
/// [`crate::PathError::not_differentiable`] or `OutOfDomain`.
///
/// In 2D a rotation-minimizing frame collapses to `(T, N)`, which adds
/// nothing beyond [`Tangent`]; the trait is primarily meaningful for 3D paths.
pub trait BishopFrame: Tangent {
    /// Frame type, typically `(T, M1, M2)` in 3D.
    type Frame;

    /// Initial-frame seed that selects one member of the family of
    /// rotation-minimizing frames.
    type Seed;

    /// The frames at the given monotonically non-decreasing arc-length
    /// samples, starting from `seed` at the first sample: one result per
    /// sample, in order. Empty samples give no frames.
    fn bishop_frames(&self, seed: Self::Seed, samples: &[Self::Scalar]) -> (r: Vec<
        Result<Self::Frame, Self::Error>,
    >)
        ensures
            r.len() == samples.len(),
    ;
}

/// The tangent of `p` at `s`, where there is one, has norm `1`.
pub open spec fn has_unit_tangent<P: Tangent>(p: P, s: P::Scalar) -> bool {
    p.spec_tangent_at(s) matches Ok(t) ==> t.spec_norm() == P::Scalar::spec_one()
}

} // verus!
