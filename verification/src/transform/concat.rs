//! Join two paths end-to-end.
//!
//! [`Concat`] connects two compatible paths into a single continuous path.
//! The combined length is the sum of the inner lengths, and sampling
//! delegates to the part that holds the arc-length. When both inner paths are
//! [`SegmentedPath`]s, the concatenation is itself a [`SegmentedPath`] whose
//! segments are those of the first path followed by those of the second.
use vstd::prelude::*;

use crate::path::{succeeds_exactly_on_domain, Path};
use crate::scalar::{obeys_exact_arithmetic, Scalar};
use crate::segment::{
    locates_coherently, segment_lengths_sum_to_length, segment_lengths_upto, SegmentedPath,
};

verus! {

/// Two paths joined end-to-end into a single continuous path.
///
/// The combined path has length `first.length() + second.length()`.
/// Sampling at or below `first.length()` delegates to the first path; the
/// remainder delegates to the second with a shifted arc-length.
pub struct Concat<A, B> {
    /// The first (prefix) path.
    first: A,
    /// The second (suffix) path.
    second: B,
}

/// `a + b`, or `usize::MAX` where the sum does not fit in a `usize`.
pub open spec fn saturating_sum(a: usize, b: usize) -> usize {
    if a + b <= usize::MAX {
        (a + b) as usize
    } else {
        usize::MAX
    }
}

impl<A, B> Concat<A, B> {
    /// The first (prefix) path.
    pub closed spec fn first(&self) -> A {
        self.first
    }

    /// The second (suffix) path.
    pub closed spec fn second(&self) -> B {
        self.second
    }

    /// Create a new concatenated path.
    pub fn new(first: A, second: B) -> (r: Self)
        ensures
            r.first() == first,
            r.second() == second,
    {
        Self { first, second }
    }
}

impl<A: Path, B: Path<Scalar = A::Scalar, Point = A::Point, Error = A::Error>> Path for Concat<
    A,
    B,
> {
    type Scalar = A::Scalar;
    type Point = A::Point;
    type Error = A::Error;

    open spec fn spec_length(&self) -> A::Scalar {
        self.first().spec_length().spec_add(self.second().spec_length())
    }

    open spec fn spec_sample_at(&self, s: A::Scalar) -> Result<A::Point, A::Error> {
        let first_len = self.first().spec_length();
        if s.spec_le(first_len) {
            self.first().spec_sample_at(s)
        } else {
            self.second().spec_sample_at(s.spec_sub(first_len))
        }
    }

    fn length(&self) -> A::Scalar {
        self.first.length().add(self.second.length())
    }

    fn sample_at(&self, s: A::Scalar) -> Result<A::Point, A::Error> {
        let first_len = self.first.length();
        if s.le(first_len) {
            self.first.sample_at(s)
        } else {
            self.second.sample_at(s.sub(first_len))
        }
    }
}

/// The length of a concatenation is the sum of the two lengths; an
/// arc-length at or below the first length samples the first path, and any
/// other samples the second path shifted by the first length.
pub proof fn concat_length_and_samples<A: Path, B: Path<
    Scalar = A::Scalar,
    Point = A::Point,
    Error = A::Error,
>>(c: Concat<A, B>, s: A::Scalar)
    ensures
        c.spec_length() == c.first().spec_length().spec_add(c.second().spec_length()),
        s.spec_le(c.first().spec_length()) ==> c.spec_sample_at(s) == c.first().spec_sample_at(s),
        !s.spec_le(c.first().spec_length()) ==> c.spec_sample_at(s) == c.second().spec_sample_at(
            s.spec_sub(c.first().spec_length()),
        ),
{
}

/// At the junction `s = first.length()` a concatenation samples the end of
/// the first path, wherever the scalar's `<=` is reflexive there.
pub proof fn concat_junction_is_first_end<A: Path, B: Path<
    Scalar = A::Scalar,
    Point = A::Point,
    Error = A::Error,
>>(c: Concat<A, B>)
    ensures
        ({
            let len = c.first().spec_length();
            len.spec_le(len) ==> c.spec_sample_at(len) == c.first().spec_sample_at(len)
        }),
{
}

/// With exact arithmetic, a concatenation of two paths of non-negative
/// length that each sample successfully exactly on their own domain samples
/// successfully exactly on `[0, first.length() + second.length()]`.
pub proof fn concat_succeeds_on_joint_domain<A: Path, B: Path<
    Scalar = A::Scalar,
    Point = A::Point,
    Error = A::Error,
>>(c: Concat<A, B>)
    requires
        obeys_exact_arithmetic::<A::Scalar>(),
        A::Scalar::spec_zero().spec_le(c.first().spec_length()),
        A::Scalar::spec_zero().spec_le(c.second().spec_length()),
        succeeds_exactly_on_domain(c.first()),
        succeeds_exactly_on_domain(c.second()),
    ensures
        succeeds_exactly_on_domain(c),
{
    let zero = A::Scalar::spec_zero();
    let l1 = c.first().spec_length();
    let l2 = c.second().spec_length();
    assert(zero.spec_add(l1).spec_le(l2.spec_add(l1)));
    assert(zero.spec_add(l1) == l1.spec_add(zero));
    assert(l2.spec_add(l1) == l1.spec_add(l2));
    assert(l1.spec_le(l1.spec_add(l2)));
    assert(c.spec_length() == l1.spec_add(l2));
    assert forall|s: A::Scalar| #[trigger] c.spec_sample_at(s) is Ok <==> (zero.spec_le(s)
        && s.spec_le(c.spec_length())) by {
        if s.spec_le(l1) {
            assert(c.spec_sample_at(s) == c.first().spec_sample_at(s));
            assert(c.first().spec_sample_at(s) is Ok <==> (zero.spec_le(s) && s.spec_le(l1)));
        } else {
            let d = s.spec_sub(l1);
            assert(c.spec_sample_at(s) == c.second().spec_sample_at(d));
            assert(c.second().spec_sample_at(d) is Ok <==> (zero.spec_le(d) && d.spec_le(l2)));
            assert(d.spec_add(l1) == s);
            assert(l1.spec_le(s));
            assert(zero.spec_le(s));
            if !zero.spec_le(d) {
                assert(d.spec_le(zero));
                assert(d.spec_add(l1).spec_le(zero.spec_add(l1)));
            }
            assert(zero.spec_le(d));
            if d.spec_le(l2) {
                assert(d.spec_add(l1).spec_le(l2.spec_add(l1)));
            }
            if s.spec_le(l1.spec_add(l2)) && !d.spec_le(l2) {
                assert(l2.spec_le(d));
                assert(l2.spec_add(l1).spec_le(d.spec_add(l1)));
                assert(s == l1.spec_add(l2));
                assert(l2.spec_add(l1).spec_sub(l1) == l2);
                assert(d == l2);
            }
        }
    }
}

/// The segments of a concatenation are numbered through: those of the first
/// path keep their indices, those of the second follow them. Counts and
/// indices saturate at `usize::MAX`; an index at or past the count names no
/// segment.
impl<A: SegmentedPath, B: SegmentedPath<Segment = A::Segment>> SegmentedPath for Concat<A, B> where
    A: Path,
    B: Path<Scalar = A::Scalar, Point = A::Point, Error = A::Error>,
 {
    type Segment = A::Segment;

    open spec fn spec_segment_count(&self) -> usize {
        saturating_sum(self.first().spec_segment_count(), self.second().spec_segment_count())
    }

    open spec fn spec_segment(&self, i: usize) -> Option<&A::Segment> {
        let n = self.first().spec_segment_count();
        if i >= self.spec_segment_count() {
            None
        } else if i < n {
            self.first().spec_segment(i)
        } else {
            self.second().spec_segment((i - n) as usize)
        }
    }

    open spec fn spec_locate(&self, s: A::Scalar) -> Result<(usize, A::Scalar), A::Error> {
        let first_len = self.first().spec_length();
        if s.spec_le(first_len) {
            self.first().spec_locate(s)
        } else {
            match self.second().spec_locate(s.spec_sub(first_len)) {
                Ok((idx, local)) => Ok(
                    (saturating_sum(self.first().spec_segment_count(), idx), local),
                ),
                Err(e) => Err(e),
            }
        }
    }

    fn segment_count(&self) -> usize {
        self.first.segment_count().saturating_add(self.second.segment_count())
    }

    fn segments(&self) -> Vec<&A::Segment> {
        let n = self.segment_count();
        let mut out: Vec<&A::Segment> = Vec::new();
        let mut i: usize = 0;
        while i < n
            invariant
                n == self.spec_segment_count(),
                i <= n,
                out.len() == i,
                forall|j: int|
                    0 <= j < out.len() ==> self.spec_segment(j as usize) == Some(#[trigger] out[j]),
            decreases n - i,
        {
            if let Some(seg) = self.segment(i) {
                out.push(seg);
            }
            i = i + 1;
        }
        out
    }

    fn segment(&self, i: usize) -> Option<&A::Segment> {
        let n = self.first.segment_count();
        if i >= self.segment_count() {
            None
        } else if i < n {
            self.first.segment(i)
        } else {
            self.second.segment(i - n)
        }
    }

    fn locate(&self, s: A::Scalar) -> Result<(usize, A::Scalar), A::Error> {
        let first_len = self.first.length();
        if s.le(first_len) {
            self.first.locate(s)
        } else {
            match self.second.locate(s.sub(first_len)) {
                Ok((idx, local)) => Ok((self.first.segment_count().saturating_add(idx), local)),
                Err(e) => Err(e),
            }
        }
    }
}

/// The segments of a concatenation are those of the first path followed by
/// those of the second, and a located arc-length beyond the first path is
/// reported with the second path's index shifted by the first path's count.
pub proof fn concat_segments<A: SegmentedPath, B: SegmentedPath<Segment = A::Segment>>(
    c: Concat<A, B>,
    i: usize,
    s: A::Scalar,
) where B: Path<Scalar = A::Scalar, Point = A::Point, Error = A::Error>
    ensures
        c.spec_segment_count() == saturating_sum(
            c.first().spec_segment_count(),
            c.second().spec_segment_count(),
        ),
        i >= c.spec_segment_count() ==> c.spec_segment(i) is None,
        i < c.first().spec_segment_count() ==> c.spec_segment(i) == c.first().spec_segment(i),
        c.first().spec_segment_count() <= i < c.spec_segment_count() ==> c.spec_segment(i)
            == c.second().spec_segment((i - c.first().spec_segment_count()) as usize),
        s.spec_le(c.first().spec_length()) ==> c.spec_locate(s) == c.first().spec_locate(s),
        !s.spec_le(c.first().spec_length()) ==> match c.second().spec_locate(
            s.spec_sub(c.first().spec_length()),
        ) {
            Ok((idx, local)) => c.spec_locate(s) == Ok::<(usize, A::Scalar), A::Error>(
                (saturating_sum(c.first().spec_segment_count(), idx), local),
            ),
            Err(e) => c.spec_locate(s) == Err::<(usize, A::Scalar), A::Error>(e),
        },
        c.first().spec_segment_count() + c.second().spec_segment_count() <= usize::MAX
            ==> c.spec_segment_count() == c.first().spec_segment_count()
            + c.second().spec_segment_count(),
        c.first().spec_segment_count() + c.second().spec_segment_count() > usize::MAX
            ==> c.spec_segment_count() == usize::MAX,
        !s.spec_le(c.first().spec_length()) ==> (c.second().spec_locate(
            s.spec_sub(c.first().spec_length()),
        ) matches Ok((idx, local)) ==> {
            &&& c.first().spec_segment_count() + idx <= usize::MAX ==> c.spec_locate(s) == Ok::<
                (usize, A::Scalar),
                A::Error,
            >(((c.first().spec_segment_count() + idx) as usize, local))
            &&& c.first().spec_segment_count() + idx > usize::MAX ==> c.spec_locate(s) == Ok::<
                (usize, A::Scalar),
                A::Error,
            >((usize::MAX, local))
        }),
{
}

/// Concatenation keeps `locate` and sampling in agreement: where the part
/// that holds `s` locates coherently, so does the concatenation, as long as
/// the two segment counts add up without saturating.
pub proof fn concat_keeps_locate_coherent<A: SegmentedPath, B: SegmentedPath<
    Segment = A::Segment,
>>(c: Concat<A, B>, s: A::Scalar) where
    B: Path<Scalar = A::Scalar, Point = A::Point, Error = A::Error>,

    requires
        c.first().spec_segment_count() + c.second().spec_segment_count() <= usize::MAX,
        s.spec_le(c.first().spec_length()) ==> locates_coherently(c.first(), s),
        !s.spec_le(c.first().spec_length()) ==> locates_coherently(
            c.second(),
            s.spec_sub(c.first().spec_length()),
        ),
    ensures
        locates_coherently(c, s),
{
}

/// The first `k` segments of a concatenation, for `k` up to the first
/// path's count, are those of the first path.
proof fn concat_segment_lengths_prefix<A: SegmentedPath, B: SegmentedPath<Segment = A::Segment>>(
    c: Concat<A, B>,
    k: nat,
) where B: Path<Scalar = A::Scalar, Point = A::Point, Error = A::Error>
    requires
        c.first().spec_segment_count() + c.second().spec_segment_count() <= usize::MAX,
        k <= c.first().spec_segment_count(),
    ensures
        segment_lengths_upto(c, k) == segment_lengths_upto(c.first(), k),
    decreases k,
{
    if k > 0 {
        concat_segment_lengths_prefix(c, (k - 1) as nat);
        assert(c.spec_segment((k - 1) as usize) == c.first().spec_segment((k - 1) as usize));
    }
}

/// The segments of a concatenation past the first path's count are those of
/// the second path, so their lengths add on to the first path's total.
proof fn concat_segment_lengths_suffix<A: SegmentedPath, B: SegmentedPath<Segment = A::Segment>>(
    c: Concat<A, B>,
    k: nat,
) where B: Path<Scalar = A::Scalar, Point = A::Point, Error = A::Error>
    requires
        obeys_exact_arithmetic::<A::Scalar>(),
        c.first().spec_segment_count() + c.second().spec_segment_count() <= usize::MAX,
        k <= c.second().spec_segment_count(),
    ensures
        segment_lengths_upto(c, (c.first().spec_segment_count() + k) as nat) == segment_lengths_upto(
            c.first(),
            c.first().spec_segment_count() as nat,
        ).spec_add(segment_lengths_upto(c.second(), k)),
    decreases k,
{
    let n = c.first().spec_segment_count();
    let total_a = segment_lengths_upto(c.first(), n as nat);
    if k == 0 {
        concat_segment_lengths_prefix(c, n as nat);
        assert(total_a.spec_add(A::Scalar::spec_zero()) == total_a);
    } else {
        concat_segment_lengths_suffix(c, (k - 1) as nat);
        let i = (n + k - 1) as usize;
        assert(c.spec_segment(i) == c.second().spec_segment((k - 1) as usize));
        let prev = segment_lengths_upto(c.second(), (k - 1) as nat);
        let len_k = match c.second().spec_segment((k - 1) as usize) {
            Some(seg) => seg.spec_length(),
            None => A::Scalar::spec_zero(),
        };
        assert(segment_lengths_upto(c, (n + k) as nat) == segment_lengths_upto(
            c,
            (n + k - 1) as nat,
        ).spec_add(len_k));
        assert(total_a.spec_add(prev).spec_add(len_k) == total_a.spec_add(prev.spec_add(len_k)));
    }
}

/// With exact arithmetic and counts that add up without saturating, a
/// concatenation of two segmented paths whose segment lengths each add up to
/// their length has segment lengths that add up to its length.
pub proof fn concat_keeps_segment_lengths<A: SegmentedPath, B: SegmentedPath<
    Segment = A::Segment,
>>(c: Concat<A, B>) where B: Path<Scalar = A::Scalar, Point = A::Point, Error = A::Error>
    requires
        obeys_exact_arithmetic::<A::Scalar>(),
        c.first().spec_segment_count() + c.second().spec_segment_count() <= usize::MAX,
        segment_lengths_sum_to_length(c.first()),
        segment_lengths_sum_to_length(c.second()),
    ensures
        segment_lengths_sum_to_length(c),
{
    concat_segment_lengths_suffix(c, c.second().spec_segment_count() as nat);
}

} // verus!
