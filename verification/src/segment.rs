//! Segmentation traits.
//!
//! - [`PathSegment`]: marker for a primitive path that is not further segmented.
//! - [`SegmentedPath`]: a path made of several segments, with enumeration,
//!   indexing, and arc-length-to-segment location.
use vstd::prelude::*;

use crate::path::Path;
use crate::scalar::Scalar;

verus! {

/// Marker trait for a path primitive that is not further segmented
/// (e.g. a line segment, a Bézier curve).
pub trait PathSegment: Path {}

/// A path composed of several [`PathSegment`]s.
///
/// Segments are numbered `0..segment_count()`; `locate` maps a global
/// arc-length to the segment that contains it and the local arc-length there.
pub trait SegmentedPath: Path {
    /// The type of the individual segments.
    type Segment: PathSegment<Scalar = Self::Scalar, Point = Self::Point, Error = Self::Error>;

    /// Number of segments.
    open spec fn spec_segment_count(&self) -> usize {
        arbitrary()
    }

    /// The segment at index `i`, if any.
    open spec fn spec_segment(&self, i: usize) -> Option<&Self::Segment> {
        arbitrary()
    }

    /// The outcome of locating arc-length `s`.
    open spec fn spec_locate(&self, s: Self::Scalar) -> Result<(usize, Self::Scalar), Self::Error> {
        arbitrary()
    }

    /// Number of segments in this path.
    fn segment_count(&self) -> (r: usize)
        ensures
            r == self.spec_segment_count(),
    ;

    /// All segments, in order: as many as `segment_count()`, the `i`-th being
    /// the segment at index `i`; no index at or past the count names a
    /// segment.
    fn segments(&self) -> (r: Vec<&Self::Segment>)
        ensures
            r.len() == self.spec_segment_count(),
            forall|i: int|
                0 <= i < r.len() ==> self.spec_segment(i as usize) == Some(#[trigger] r[i]),
            forall|i: usize| i >= self.spec_segment_count() ==> #[trigger] self.spec_segment(i) is None,
    ;

    /// The segment at index `i`, or `None` if out of bounds: the `i`-th of
    /// `segments()`.
    fn segment(&self, i: usize) -> (r: Option<&Self::Segment>)
        ensures
            r == self.spec_segment(i),
            i < self.spec_segment_count() ==> r is Some,
            i >= self.spec_segment_count() ==> r is None,
    {
        let all = self.segments();
        if i < all.len() {
            Some(all[i])
        } else {
            None
        }
    }

    /// Map global arc-length `s` to `(segment_index, local_s)`.
    ///
    /// Returns the index of the segment containing `s` and the local
    /// arc-length within that segment. Errors when `s` is outside the path's
    /// domain.
    fn locate(&self, s: Self::Scalar) -> (r: Result<(usize, Self::Scalar), Self::Error>)
        ensures
            r == self.spec_locate(s),
    ;
}

/// `locate` and sampling agree at `s`: a located index names one of the
/// path's segments, the local arc-length lies in `[0, segment length]`, and
/// that segment sampled at the local arc-length gives the path's own sample
/// at `s`; a failed location fails as sampling does.
pub open spec fn locates_coherently<P: SegmentedPath>(p: P, s: P::Scalar) -> bool {
    match p.spec_locate(s) {
        Ok((i, local)) => {
            &&& i < p.spec_segment_count()
            &&& match p.spec_segment(i) {
                Some(seg) => {
                    &&& P::Scalar::spec_zero().spec_le(local)
                    &&& local.spec_le(seg.spec_length())
                    &&& seg.spec_sample_at(local) == p.spec_sample_at(s)
                },
                None => false,
            }
        },
        Err(e) => p.spec_sample_at(s) == Err::<P::Point, P::Error>(e),
    }
}

/// The total length of the first `k` segments of `p` (an index that names
/// no segment adds nothing), summed from the first segment on.
pub open spec fn segment_lengths_upto<P: SegmentedPath>(p: P, k: nat) -> P::Scalar
    decreases k,
{
    if k == 0 {
        P::Scalar::spec_zero()
    } else {
        segment_lengths_upto(p, (k - 1) as nat).spec_add(
            match p.spec_segment((k - 1) as usize) {
                Some(seg) => seg.spec_length(),
                None => P::Scalar::spec_zero(),
            },
        )
    }
}

/// The lengths of all segments of `p` add up to the length of `p`.
pub open spec fn segment_lengths_sum_to_length<P: SegmentedPath>(p: P) -> bool {
    segment_lengths_upto(p, p.spec_segment_count() as nat) == p.spec_length()
}

} // verus!
