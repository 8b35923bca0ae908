use core::fmt::Debug;

use num_traits::Float;
use path_traits::{
    equidistant, n_samples, uniform_t, Curved, Equidistant, Heading, Negate, ParametricPath,
    Path, PathError, PathExt, PathSegment, Point, Project, Scalar, SegmentedPath, Tangent,
    Vector,
};

/// A floating-point scalar: the arithmetic of `num_traits::Float`.
#[derive(Clone, Copy, PartialEq, PartialOrd)]
struct Real<T>(T);

impl<T: Debug> Debug for Real<T> {
    fn fmt(&self, f: &mut core::fmt::Formatter<'_>) -> core::fmt::Result {
        self.0.fmt(f)
    }
}

impl<T: Float + Debug + 'static> Negate for Real<T> {
    fn negate(self) -> Self {
        Real(-self.0)
    }
}

impl<T: Float + Debug + 'static> Scalar for Real<T> {
    fn zero() -> Self {
        Real(T::zero())
    }
    fn one() -> Self {
        Real(T::one())
    }
    fn from_usize(n: usize) -> Self {
        Real(T::from(n).unwrap_or(T::one()))
    }
    fn add(self, rhs: Self) -> Self {
        Real(self.0 + rhs.0)
    }
    fn sub(self, rhs: Self) -> Self {
        Real(self.0 - rhs.0)
    }
    fn mul(self, rhs: Self) -> Self {
        Real(self.0 * rhs.0)
    }
    fn div(self, rhs: Self) -> Self {
        Real(self.0 / rhs.0)
    }
    fn le(self, rhs: Self) -> bool {
        self.0 <= rhs.0
    }
    fn lt(self, rhs: Self) -> bool {
        self.0 < rhs.0
    }
}

type R = Real<f64>;

#[derive(Debug, Clone, Copy, PartialEq)]
struct Vec2(f64, f64);

impl Vector for Vec2 {
    type Scalar = R;
    fn zero() -> Self {
        Vec2(0.0, 0.0)
    }
    fn dot(self, rhs: Self) -> R {
        Real(self.0 * rhs.0 + self.1 * rhs.1)
    }
    fn norm(self) -> R {
        Real((self.0 * self.0 + self.1 * self.1).sqrt())
    }
    fn add(self, rhs: Self) -> Self {
        Vec2(self.0 + rhs.0, self.1 + rhs.1)
    }
    fn sub(self, rhs: Self) -> Self {
        Vec2(self.0 - rhs.0, self.1 - rhs.1)
    }
    fn scale(self, k: R) -> Self {
        Vec2(self.0 * k.0, self.1 * k.0)
    }
}

#[derive(Debug, Clone, Copy, PartialEq)]
struct Pt2(f64, f64);

impl Point for Pt2 {
    type Scalar = R;
    type Vector = Vec2;
    fn displacement(self, other: Self) -> Vec2 {
        Vec2(other.0 - self.0, other.1 - self.1)
    }
    fn translate(self, v: Vec2) -> Self {
        Pt2(self.0 + v.0, self.1 + v.1)
    }
}

#[derive(Debug, Clone)]
struct LineSegment2 {
    a: Pt2,
    b: Pt2,
    len: f64,
}

impl LineSegment2 {
    fn new(a: Pt2, b: Pt2) -> Self {
        let len = a.distance(b).0;
        Self { a, b, len }
    }
}

impl Path for LineSegment2 {
    type Scalar = R;
    type Point = Pt2;
    type Error = PathError<R>;

    fn length(&self) -> R {
        Real(self.len)
    }

    fn sample_at(&self, s: R) -> Result<Pt2, PathError<R>> {
        if s.0 < 0.0 || s.0 > self.len {
            return Err(PathError::out_of_domain(s, self.domain()));
        }
        if self.len == 0.0 {
            return Ok(self.a);
        }
        let t = s.0 / self.len;
        Ok(Pt2(
            self.a.0 + t * (self.b.0 - self.a.0),
            self.a.1 + t * (self.b.1 - self.a.1),
        ))
    }
}

impl PathSegment for LineSegment2 {}

impl ParametricPath for LineSegment2 {
    fn sample_t(&self, t: R) -> Result<Pt2, PathError<R>> {
        if !(0.0..=1.0).contains(&t.0) {
            return Err(PathError::out_of_domain(t, Real(0.0)..=Real(1.0)));
        }
        Ok(Pt2(
            self.a.0 + t.0 * (self.b.0 - self.a.0),
            self.a.1 + t.0 * (self.b.1 - self.a.1),
        ))
    }
}

impl Tangent for LineSegment2 {
    fn tangent_at(&self, s: R) -> Result<Vec2, PathError<R>> {
        if s.0 < 0.0 || s.0 > self.len {
            return Err(PathError::out_of_domain(s, self.domain()));
        }
        if self.len == 0.0 {
            return Err(PathError::degenerate("zero-length segment"));
        }
        let dir = self.a.displacement(self.b);
        Ok(dir.scale(Real(1.0 / self.len)))
    }
}

impl Heading for LineSegment2 {
    fn heading_at(&self, s: R) -> Result<R, PathError<R>> {
        if s.0 < 0.0 || s.0 > self.len {
            return Err(PathError::out_of_domain(s, self.domain()));
        }
        if self.len == 0.0 {
            return Err(PathError::degenerate("zero-length segment"));
        }
        let dir = self.a.displacement(self.b);
        Ok(Real(dir.1.atan2(dir.0)))
    }
}

impl Curved for LineSegment2 {
    type Curvature = R;
    fn curvature_at(&self, s: R) -> Result<R, PathError<R>> {
        if s.0 < 0.0 || s.0 > self.len {
            return Err(PathError::out_of_domain(s, self.domain()));
        }
        Ok(Real(0.0))
    }
}

impl Project for LineSegment2 {
    fn project(&self, p: Pt2) -> Result<R, PathError<R>> {
        if self.len == 0.0 {
            return Ok(Real(0.0));
        }
        let dir = self.a.displacement(self.b);
        let to_p = self.a.displacement(p);
        let t = to_p.dot(dir).0 / dir.dot(dir).0;
        let t_clamped = t.clamp(0.0, 1.0);
        Ok(Real(t_clamped * self.len))
    }
}

#[derive(Debug, Clone)]
struct Polyline2 {
    #[allow(dead_code)]
    points: Vec<Pt2>,
    segments: Vec<LineSegment2>,
    seg_lengths: Vec<f64>,
    total_len: f64,
}

impl Polyline2 {
    fn new(points: Vec<Pt2>) -> Self {
        assert!(points.len() >= 2);
        let segments: Vec<_> = points
            .windows(2)
            .map(|w| LineSegment2::new(w[0], w[1]))
            .collect();
        let seg_lengths: Vec<_> = segments.iter().map(|s| s.len).collect();
        let total_len = seg_lengths.iter().sum();
        Self {
            points,
            segments,
            seg_lengths,
            total_len,
        }
    }
}

impl Path for Polyline2 {
    type Scalar = R;
    type Point = Pt2;
    type Error = PathError<R>;

    fn length(&self) -> R {
        Real(self.total_len)
    }

    fn sample_at(&self, s: R) -> Result<Pt2, PathError<R>> {
        if s.0 < 0.0 || s.0 > self.total_len {
            return Err(PathError::out_of_domain(s, self.domain()));
        }
        let (idx, local) = self.locate(s)?;
        self.segments[idx].sample_at(local)
    }
}

impl SegmentedPath for Polyline2 {
    type Segment = LineSegment2;

    fn segment_count(&self) -> usize {
        self.segments.len()
    }

    fn segments(&self) -> Vec<&LineSegment2> {
        self.segments.iter().collect()
    }

    fn locate(&self, s: R) -> Result<(usize, R), PathError<R>> {
        if s.0 < 0.0 || s.0 > self.total_len {
            return Err(PathError::out_of_domain(s, self.domain()));
        }
        let mut remaining = s.0;
        for (i, &seg_len) in self.seg_lengths.iter().enumerate() {
            if remaining <= seg_len {
                return Ok((i, Real(remaining)));
            }
            remaining -= seg_len;
        }
        Ok((
            self.segments.len() - 1,
            Real(self.seg_lengths.last().copied().unwrap_or(0.0)),
        ))
    }
}

/// Every sample an equidistant sampler yields, in order.
fn drain<P: Path>(mut sampler: Equidistant<'_, P>) -> Vec<Result<P::Point, P::Error>> {
    let mut out = Vec::new();
    while let Some(r) = sampler.next() {
        out.push(r);
    }
    out
}

#[test]
fn std_num_traits_line_segment_length() {
    let seg = LineSegment2::new(Pt2(0.0, 0.0), Pt2(3.0, 4.0));
    assert!((seg.length().0 - 5.0).abs() < 1e-10);
}

#[test]
fn std_num_traits_line_segment_start_end() {
    let seg = LineSegment2::new(Pt2(1.0, 2.0), Pt2(4.0, 6.0));
    let start = seg.start().unwrap();
    let end = seg.end().unwrap();
    assert_eq!(start, Pt2(1.0, 2.0));
    assert_eq!(end, Pt2(4.0, 6.0));
}

#[test]
fn std_num_traits_line_segment_sample_mid() {
    let seg = LineSegment2::new(Pt2(0.0, 0.0), Pt2(2.0, 0.0));
    let mid = seg.sample_at(Real(1.0)).unwrap();
    assert!((mid.0 - 1.0).abs() < 1e-10);
    assert!((mid.1 - 0.0).abs() < 1e-10);
}

#[test]
fn std_num_traits_line_segment_out_of_domain() {
    let seg = LineSegment2::new(Pt2(0.0, 0.0), Pt2(1.0, 0.0));
    let err = seg.sample_at(Real(-0.1)).unwrap_err();
    assert!(
        matches!(err, PathError::OutOfDomain { param, domain } if (param.0 - -0.1).abs() < 1e-10 && domain.start().0 == 0.0 && (domain.end().0 - 1.0).abs() < 1e-10)
    );
    let err = seg.sample_at(Real(1.1)).unwrap_err();
    assert!(
        matches!(err, PathError::OutOfDomain { param, domain } if (param.0 - 1.1).abs() < 1e-10 && domain.start().0 == 0.0 && (domain.end().0 - 1.0).abs() < 1e-10)
    );
}

#[test]
fn std_num_traits_line_segment_tangent() {
    let seg = LineSegment2::new(Pt2(0.0, 0.0), Pt2(3.0, 4.0));
    let t = seg.tangent_at(Real(2.5)).unwrap();
    let expected = Vec2(0.6, 0.8);
    assert!((t.0 - expected.0).abs() < 1e-10);
    assert!((t.1 - expected.1).abs() < 1e-10);
}

#[test]
fn std_num_traits_line_segment_heading() {
    let seg = LineSegment2::new(Pt2(0.0, 0.0), Pt2(1.0, 1.0));
    let h = seg.heading_at(Real(0.5)).unwrap();
    assert!((h.0 - core::f64::consts::FRAC_PI_4).abs() < 1e-10);
}

#[test]
fn std_num_traits_line_segment_curvature_zero() {
    let seg = LineSegment2::new(Pt2(0.0, 0.0), Pt2(5.0, 0.0));
    assert_eq!(seg.curvature_at(Real(2.5)).unwrap(), Real(0.0));
}

#[test]
fn polyline_segment_count() {
    let pts = vec![Pt2(0.0, 0.0), Pt2(1.0, 0.0), Pt2(1.0, 1.0)];
    let poly = Polyline2::new(pts);
    assert_eq!(poly.segment_count(), 2);
    assert_eq!(poly.segments().len(), 2);
}

#[test]
fn polyline_total_length() {
    let pts = vec![Pt2(0.0, 0.0), Pt2(3.0, 0.0), Pt2(3.0, 4.0)];
    let poly = Polyline2::new(pts);
    assert!((poly.length().0 - 7.0).abs() < 1e-10);
}

#[test]
fn polyline_locate_roundtrip() {
    let pts = vec![Pt2(0.0, 0.0), Pt2(2.0, 0.0), Pt2(2.0, 3.0)];
    let poly = Polyline2::new(pts);
    let (idx, local) = poly.locate(Real(1.0)).unwrap();
    assert_eq!(idx, 0);
    assert!((local.0 - 1.0).abs() < 1e-10);
    let (idx, local) = poly.locate(Real(3.0)).unwrap();
    assert_eq!(idx, 1);
    assert!((local.0 - 1.0).abs() < 1e-10);
}

#[test]
fn polyline_sample_via_locate() {
    let pts = vec![Pt2(0.0, 0.0), Pt2(2.0, 0.0), Pt2(2.0, 3.0)];
    let poly = Polyline2::new(pts);
    let (idx, local) = poly.locate(Real(1.0)).unwrap();
    let via_poly = poly.sample_at(Real(1.0)).unwrap();
    let via_seg = poly.segments[idx].sample_at(local).unwrap();
    assert_eq!(via_poly, via_seg);
}

#[test]
fn std_num_traits_equidistant_samples() {
    let seg = LineSegment2::new(Pt2(0.0, 0.0), Pt2(4.0, 0.0));
    let samples = drain(equidistant(&seg, Real(1.0)));
    assert_eq!(samples.len(), 5);
    for r in &samples {
        assert!(r.is_ok());
    }
}

#[test]
fn std_num_traits_n_samples_count() {
    let seg = LineSegment2::new(Pt2(0.0, 0.0), Pt2(10.0, 0.0));
    let samples = n_samples(&seg, 3);
    assert_eq!(samples.len(), 3);
}

#[test]
fn std_num_traits_uniform_t_samples() {
    let seg = LineSegment2::new(Pt2(0.0, 0.0), Pt2(10.0, 0.0));
    let samples = uniform_t(&seg, 5);
    assert_eq!(samples.len(), 5);
}

#[test]
fn std_num_traits_reverse_double_equals_original() {
    let seg = LineSegment2::new(Pt2(0.0, 0.0), Pt2(5.0, 0.0));
    let rev = seg.clone().reverse();
    let rev2 = rev.reverse();
    for s in [0.0, 1.25, 2.5, 3.75, 5.0] {
        let orig = seg.sample_at(Real(s)).unwrap();
        let double_rev = rev2.sample_at(Real(s)).unwrap();
        assert!((orig.0 - double_rev.0).abs() < 1e-10);
        assert!((orig.1 - double_rev.1).abs() < 1e-10);
    }
}

#[test]
fn std_num_traits_concat_total_length() {
    let a = LineSegment2::new(Pt2(0.0, 0.0), Pt2(3.0, 0.0));
    let b = LineSegment2::new(Pt2(3.0, 0.0), Pt2(3.0, 4.0));
    let c = a.concat(b);
    assert!((c.length().0 - 7.0).abs() < 1e-10);
}

#[test]
fn std_num_traits_domain_matches_length() {
    let seg = LineSegment2::new(Pt2(0.0, 0.0), Pt2(3.0, 4.0));
    let domain = seg.domain();
    assert!(domain.start().0 == 0.0);
    assert!((domain.end().0 - 5.0).abs() < 1e-10);
}

#[test]
fn std_num_traits_project_onto_segment() {
    let seg = LineSegment2::new(Pt2(0.0, 0.0), Pt2(4.0, 0.0));
    let s = seg.project(Pt2(2.0, 3.0)).unwrap();
    assert!((s.0 - 2.0).abs() < 1e-10);
}

#[test]
fn std_num_traits_project_clamped_to_end() {
    let seg = LineSegment2::new(Pt2(0.0, 0.0), Pt2(3.0, 0.0));
    let s = seg.project(Pt2(5.0, 1.0)).unwrap();
    assert!((s.0 - 3.0).abs() < 1e-10);
}

#[test]
fn std_num_traits_project_clamped_to_start() {
    let seg = LineSegment2::new(Pt2(2.0, 0.0), Pt2(5.0, 0.0));
    let s = seg.project(Pt2(0.0, 1.0)).unwrap();
    assert!(s.0.abs() < 1e-10);
}

#[test]
fn std_num_traits_closest_point_on_segment() {
    let seg = LineSegment2::new(Pt2(0.0, 0.0), Pt2(4.0, 0.0));
    let cp = seg.closest_point(Pt2(1.0, 5.0)).unwrap();
    assert!((cp.0 - 1.0).abs() < 1e-10);
    assert!((cp.1 - 0.0).abs() < 1e-10);
}

#[test]
fn std_num_traits_concat_sample_across_boundary() {
    let a = LineSegment2::new(Pt2(0.0, 0.0), Pt2(3.0, 0.0));
    let b = LineSegment2::new(Pt2(3.0, 0.0), Pt2(3.0, 4.0));
    let c = a.concat(b);
    let junction = c.sample_at(Real(3.0)).unwrap();
    assert!((junction.0 - 3.0).abs() < 1e-10);
    assert!((junction.1 - 0.0).abs() < 1e-10);
    let into_b = c.sample_at(Real(5.0)).unwrap();
    assert!((into_b.0 - 3.0).abs() < 1e-10);
    assert!((into_b.1 - 2.0).abs() < 1e-10);
}

#[test]
fn std_num_traits_reverse_tangent_negated() {
    let seg = LineSegment2::new(Pt2(0.0, 0.0), Pt2(3.0, 4.0));
    let rev = seg.clone().reverse();
    let orig_t = seg.tangent_at(Real(2.0)).unwrap();
    let rev_t = rev.tangent_at(Real(seg.length().0 - 2.0)).unwrap();
    assert!((rev_t.0 - (-orig_t.0)).abs() < 1e-10);
    assert!((rev_t.1 - (-orig_t.1)).abs() < 1e-10);
}

#[test]
fn std_num_traits_reverse_curvature_negated() {
    let seg = LineSegment2::new(Pt2(0.0, 0.0), Pt2(5.0, 0.0));
    let rev = seg.clone().reverse();
    let orig_k = seg.curvature_at(Real(2.0)).unwrap();
    let rev_k = rev.curvature_at(Real(3.0)).unwrap();
    assert!((rev_k.0 - (-orig_k.0)).abs() < 1e-10);
}

#[test]
fn std_num_traits_reverse_start_is_original_end() {
    let seg = LineSegment2::new(Pt2(1.0, 2.0), Pt2(4.0, 6.0));
    let rev = seg.clone().reverse();
    let rev_start = rev.start().unwrap();
    let orig_end = seg.end().unwrap();
    assert_eq!(rev_start, orig_end);
}

#[test]
fn offset_horizontal_segment_shifts_x() {
    let seg = LineSegment2::new(Pt2(0.0, 0.0), Pt2(5.0, 0.0));
    let d = 2.0;
    let offset_path = seg.clone().offset(Real(d));
    let offset_mid = offset_path.sample_at(Real(2.5)).unwrap();
    let orig_mid = seg.sample_at(Real(2.5)).unwrap();
    assert!((offset_mid.0 - (orig_mid.0 + d)).abs() < 1e-10);
    assert!((offset_mid.1 - orig_mid.1).abs() < 1e-10);
}

#[test]
fn offset_negative_distance() {
    let seg = LineSegment2::new(Pt2(0.0, 0.0), Pt2(5.0, 0.0));
    let d = -3.0;
    let offset_path = seg.clone().offset(Real(d));
    let offset_mid = offset_path.sample_at(Real(2.5)).unwrap();
    let orig_mid = seg.sample_at(Real(2.5)).unwrap();
    assert!((offset_mid.0 - (orig_mid.0 + d)).abs() < 1e-10);
    assert!((offset_mid.1 - orig_mid.1).abs() < 1e-10);
}

#[test]
fn offset_preserves_length() {
    let seg = LineSegment2::new(Pt2(0.0, 0.0), Pt2(5.0, 0.0));
    let offset_path = seg.clone().offset(Real(1.5));
    assert!((offset_path.length().0 - seg.length().0).abs() < 1e-10);
}

#[test]
fn polyline_equidistant_iterator() {
    let pts = vec![Pt2(0.0, 0.0), Pt2(3.0, 0.0), Pt2(3.0, 4.0)];
    let poly = Polyline2::new(pts);
    let samples = drain(equidistant(&poly, Real(1.0)));
    assert_eq!(samples.len(), 8);
    for r in &samples {
        assert!(r.is_ok());
    }
}

#[test]
fn reverse_twice_gives_back_curvature() {
    let seg = LineSegment2::new(Pt2(0.0, 0.0), Pt2(4.0, 0.0));
    let rev2 = seg.clone().reverse().reverse();
    assert_eq!(rev2.curvature_at(Real(1.0)).unwrap(), seg.curvature_at(Real(1.0)).unwrap());
}
