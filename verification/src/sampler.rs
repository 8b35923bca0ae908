//! Sampling functions.
//!
//! - [`equidistant`]: samples at fixed arc-length steps
//! - [`n_samples`]: samples at `n` evenly-spaced arc-length positions
//! - [`uniform_t`]: samples at `n` evenly-spaced normalized-parameter values
use vstd::prelude::*;

use crate::path::{samples_t_at_ends, ParametricPath, Path};
use crate::scalar::{obeys_exact_arithmetic, Scalar};

verus! {

/// Lazily samples a path at `s = 0, step, 2*step, …` while `s <= length`.
///
/// Made by [`equidistant`]; the `k`-th call of [`Equidistant::next`] yields
/// the sample at `equidistant_param(step, k)`, or `None` once that
/// arc-length has passed the path's length (and `None` from then on).
pub struct Equidistant<'a, P: Path> {
    path: &'a P,
    step: P::Scalar,
    length: P::Scalar,
    s: P::Scalar,
    taken: Ghost<nat>,
}

impl<'a, P: Path> Equidistant<'a, P> {
    /// The next arc-length is `step` added to `0` once per sample taken.
    #[verifier::type_invariant]
    closed spec fn params_follow_count(self) -> bool {
        self.s == equidistant_param(self.step, self.taken@)
    }

    /// The path being sampled.
    pub closed spec fn path(&self) -> &'a P {
        self.path
    }

    /// The arc-length increment between samples.
    pub closed spec fn step(&self) -> P::Scalar {
        self.step
    }

    /// The path's length, read when the sampler was made.
    pub closed spec fn limit(&self) -> P::Scalar {
        self.length
    }

    /// The arc-length of the next sample.
    pub closed spec fn next_param(&self) -> P::Scalar {
        self.s
    }

    /// The number of samples yielded so far.
    pub closed spec fn count(&self) -> nat {
        self.taken@
    }

    /// The next sample. With `k` samples taken so far and
    /// `s_k = equidistant_param(step, k)`: `None` when `length < s_k`, and
    /// then the sampler is unchanged (so every later call is `None` too);
    /// otherwise the sample at `s_k`, exactly as the path returns it (an
    /// error included), after which `k` grows by one.
    pub fn next(&mut self) -> (r: Option<Result<P::Point, P::Error>>)
        ensures
            old(self).next_param() == equidistant_param(old(self).step(), old(self).count()),
            final(self).path() == old(self).path(),
            final(self).step() == old(self).step(),
            final(self).limit() == old(self).limit(),
            final(self).next_param() == equidistant_param(final(self).step(), final(self).count()),
            old(self).limit().spec_lt(old(self).next_param()) ==> {
                &&& r is None
                &&& *final(self) == *old(self)
            },
            !old(self).limit().spec_lt(old(self).next_param()) ==> {
                &&& r == Some(
                    old(self).path().spec_sample_at(
                        equidistant_param(old(self).step(), old(self).count()),
                    ),
                )
                &&& final(self).count() == old(self).count() + 1
                &&& final(self).next_param() == old(self).next_param().spec_add(old(self).step())
            },
    {
        proof {
            use_type_invariant(&*self);
        }
        if self.length.lt(self.s) {
            None
        } else {
            let result = self.path.sample_at(self.s);
            let next_s = self.s.add(self.step);
            let ghost k = self.taken@;
            *self = Equidistant {
                path: self.path,
                step: self.step,
                length: self.length,
                s: next_s,
                taken: Ghost(k + 1),
            };
            Some(result)
        }
    }
}

/// The arc-length of the `k`-th equidistant sample: `step` added `k` times to `0`.
pub open spec fn equidistant_param<S: Scalar>(step: S, k: nat) -> S
    decreases k,
{
    if k == 0 {
        S::spec_zero()
    } else {
        equidistant_param(step, (k - 1) as nat).spec_add(step)
    }
}

/// Sample a path at equidistant arc-length intervals.
///
/// Yields points at `s = 0, step, 2*step, …` for as long as `s <= length`
/// (read as `!(length < s)`); no sample is taken past the length.
pub fn equidistant<'a, P: Path>(path: &'a P, step: P::Scalar) -> (r: Equidistant<'a, P>)
    ensures
        r.path() == path,
        r.step() == step,
        r.limit() == path.spec_length(),
        r.count() == 0,
        r.next_param() == P::Scalar::spec_zero(),
        r.next_param() == equidistant_param(step, 0),
{
    let length = path.length();
    let zero = P::Scalar::zero();
    Equidistant { path, step, length, s: zero, taken: Ghost(0) }
}

/// The spacing of `n` evenly-spaced values over `[0, total]`:
/// `total / (n - 1)` for `n > 1`, and `0` otherwise.
pub open spec fn even_step<S: Scalar>(total: S, n: usize) -> S {
    if n > 1 {
        total.spec_div(S::spec_from_usize(n).spec_sub(S::spec_one()))
    } else {
        S::spec_zero()
    }
}

/// The `i`-th of `n` evenly-spaced values over `[0, total]`: `0` when `n == 1`,
/// and `i * even_step(total, n)` otherwise.
pub open spec fn even_param<S: Scalar>(total: S, n: usize, i: usize) -> S {
    if n == 1 {
        S::spec_zero()
    } else {
        S::spec_from_usize(i).spec_mul(even_step(total, n))
    }
}

/// The `i`-th of `n` evenly-spaced values over `[0, total]`.
fn evenly_spaced<S: Scalar>(i: usize, n: usize, step: S) -> (r: S)
    ensures
        n == 1 ==> r == S::spec_zero(),
        n != 1 ==> r == S::spec_from_usize(i).spec_mul(step),
{
    if n == 1 {
        S::zero()
    } else {
        S::from_usize(i).mul(step)
    }
}

/// The spacing of `n` evenly-spaced values over `[0, total]`.
fn spacing<S: Scalar>(total: S, n: usize) -> (r: S)
    ensures
        r == even_step(total, n),
{
    let one = S::one();
    let n_scalar = S::from_usize(n);
    if n > 1 {
        total.div(n_scalar.sub(one))
    } else {
        S::zero()
    }
}

/// Sample a path at `n` evenly-spaced arc-length positions.
///
/// The samples are at `s = 0, length/(n-1), 2*length/(n-1), …, length`, in
/// order. For `n == 1`, there is a single sample at `s = 0`; for `n == 0`, none.
pub fn n_samples<P: Path>(path: &P, n: usize) -> (r: Vec<Result<P::Point, P::Error>>)
    ensures
        r.len() == n,
        forall|i: int|
            0 <= i < n ==> #[trigger] r[i] == path.spec_sample_at(
                even_param(path.spec_length(), n, i as usize),
            ),
        n == 1 ==> r[0] == path.spec_sample_at(P::Scalar::spec_zero()),
        n >= 2 ==> forall|i: int|
            0 <= i < n ==> #[trigger] r[i] == path.spec_sample_at(
                P::Scalar::spec_from_usize(i as usize).spec_mul(
                    path.spec_length().spec_div(
                        P::Scalar::spec_from_usize(n).spec_sub(P::Scalar::spec_one()),
                    ),
                ),
            ),
{
    let length = path.length();
    let step = spacing(length, n);
    let mut out: Vec<Result<P::Point, P::Error>> = Vec::new();
    let mut i: usize = 0;
    while i < n
        invariant
            i <= n,
            length == path.spec_length(),
            step == even_step(length, n),
            out.len() == i,
            forall|j: int|
                0 <= j < i ==> #[trigger] out[j] == path.spec_sample_at(
                    even_param(length, n, j as usize),
                ),
        decreases n - i,
    {
        let s = evenly_spaced(i, n, step);
        out.push(path.sample_at(s));
        i = i + 1;
    }
    out
}

/// Sample a parametric path at `n` evenly-spaced `t` values in `[0, 1]`.
///
/// The samples are at `t = 0, 1/(n-1), 2/(n-1), …, 1`, in order. For
/// `n == 1`, there is a single sample at `t = 0`; for `n == 0`, none.
pub fn uniform_t<P: ParametricPath>(path: &P, n: usize) -> (r: Vec<Result<P::Point, P::Error>>)
    ensures
        r.len() == n,
        forall|i: int|
            0 <= i < n ==> #[trigger] r[i] == path.spec_sample_t(
                even_param(P::Scalar::spec_one(), n, i as usize),
            ),
        n == 1 ==> r[0] == path.spec_sample_t(P::Scalar::spec_zero()),
        n >= 2 ==> forall|i: int|
            0 <= i < n ==> #[trigger] r[i] == path.spec_sample_t(
                P::Scalar::spec_from_usize(i as usize).spec_mul(
                    P::Scalar::spec_one().spec_div(
                        P::Scalar::spec_from_usize(n).spec_sub(P::Scalar::spec_one()),
                    ),
                ),
            ),
{
    let one = P::Scalar::one();
    let dt = spacing(one, n);
    let mut out: Vec<Result<P::Point, P::Error>> = Vec::new();
    let mut i: usize = 0;
    while i < n
        invariant
            i <= n,
            one == P::Scalar::spec_one(),
            dt == even_step(one, n),
            out.len() == i,
            forall|j: int|
                0 <= j < i ==> #[trigger] out[j] == path.spec_sample_t(
                    even_param(one, n, j as usize),
                ),
        decreases n - i,
    {
        let t = evenly_spaced(i, n, dt);
        out.push(path.sample_t(t));
        i = i + 1;
    }
    out
}

/// The arc-lengths of an equidistant sampler start at the scalar zero, for
/// every scalar type, and each next one is the previous one plus `step`.
pub proof fn equidistant_params_start_at_zero<S: Scalar>(step: S, k: nat)
    ensures
        equidistant_param(step, 0) == S::spec_zero(),
        equidistant_param(step, k + 1) == equidistant_param(step, k).spec_add(step),
{
}

/// For every scalar type, the single value of `n == 1` evenly-spaced values
/// is zero, and for `n >= 2` the `i`-th is `i * (total / (n - 1))`.
pub proof fn even_param_positions<S: Scalar>(total: S, n: usize, i: usize)
    ensures
        n == 1 ==> even_param(total, n, i) == S::spec_zero(),
        n >= 2 ==> even_param(total, n, i) == S::spec_from_usize(i).spec_mul(
            total.spec_div(S::spec_from_usize(n).spec_sub(S::spec_one())),
        ),
{
}

/// With exact arithmetic and `n >= 2`, the spacing over `[0, total]` is
/// `total / (n - 1)`, and each evenly-spaced value is the previous one plus
/// the spacing.
proof fn even_param_steps<S: Scalar>(total: S, n: usize, i: usize)
    requires
        obeys_exact_arithmetic::<S>(),
        2 <= n,
        i + 1 < n,
    ensures
        S::spec_from_usize(n).spec_sub(S::spec_one()) == S::spec_from_usize((n - 1) as usize),
        S::spec_from_usize((n - 1) as usize) != S::spec_zero(),
        even_param(total, n, (i + 1) as usize) == even_param(total, n, i).spec_add(
            even_step(total, n),
        ),
{
    let one = S::spec_one();
    let c = S::spec_from_usize((n - 1) as usize);
    assert(S::spec_from_usize(((n - 1) as usize + 1) as usize) == c.spec_add(one));
    assert(c.spec_add(one).spec_sub(one) == c);
    assert(S::spec_zero().spec_lt(c));
    assert(S::spec_zero().spec_le(S::spec_zero()));
    let step = even_step(total, n);
    let a = S::spec_from_usize(i);
    assert(S::spec_from_usize((i + 1) as usize) == a.spec_add(one));
    assert(even_param(total, n, (i + 1) as usize) == S::spec_from_usize((i + 1) as usize).spec_mul(step));
    assert(a.spec_add(one).spec_mul(step) == a.spec_mul(step).spec_add(one.spec_mul(step)));
    assert(one.spec_mul(step) == step);
}

/// With exact arithmetic and `0 <= total`, the spacing is non-negative and
/// the evenly-spaced values from the `i`-th on are at least the `i`-th.
proof fn even_params_rise<S: Scalar>(total: S, n: usize, i: usize, j: usize)
    requires
        obeys_exact_arithmetic::<S>(),
        2 <= n,
        S::spec_zero().spec_le(total),
        i <= j < n,
    ensures
        S::spec_zero().spec_le(even_step(total, n)),
        even_param(total, n, i).spec_le(even_param(total, n, j)),
    decreases j - i,
{
    let zero = S::spec_zero();
    let c = S::spec_from_usize((n - 1) as usize);
    even_param_steps(total, n, 0);
    assert(zero.spec_lt(c));
    let step = even_step(total, n);
    assert(step == total.spec_div(c));
    assert(zero.spec_le(step));
    if i == j {
        assert(even_param(total, n, i).spec_le(even_param(total, n, i)));
    } else {
        even_params_rise(total, n, i, (j - 1) as usize);
        even_param_steps(total, n, (j - 1) as usize);
        let p = even_param(total, n, (j - 1) as usize);
        assert(zero.spec_add(p).spec_le(step.spec_add(p)));
        assert(zero.spec_add(p) == p.spec_add(zero));
        assert(p.spec_add(zero) == p);
        assert(step.spec_add(p) == p.spec_add(step));
        assert(p.spec_le(even_param(total, n, j)));
        assert(even_param(total, n, i).spec_le(p));
    }
}

/// With exact arithmetic, `n >= 2` evenly-spaced values over `[0, total]`
/// start at `0` and end exactly at `total`; when `0 <= total` they rise from
/// each to the next and all lie in `[0, total]`. So the first of
/// `n_samples(path, n)` is the path's start and the last its end, and the
/// `t` values of `uniform_t(path, n)` run from `0` to `1`.
pub proof fn even_params_span<S: Scalar>(total: S, n: usize)
    requires
        obeys_exact_arithmetic::<S>(),
        2 <= n,
    ensures
        even_param(total, n, 0) == S::spec_zero(),
        even_param(total, n, (n - 1) as usize) == total,
        S::spec_zero().spec_le(total) ==> forall|i: usize|
            i < n ==> S::spec_zero().spec_le(#[trigger] even_param(total, n, i)) && even_param(
                total,
                n,
                i,
            ).spec_le(total),
        S::spec_zero().spec_le(total) ==> forall|i: usize|
            i + 1 < n ==> #[trigger] even_param(total, n, i).spec_le(
                even_param(total, n, (i + 1) as usize),
            ),
{
    let zero = S::spec_zero();
    let c = S::spec_from_usize((n - 1) as usize);
    even_param_steps(total, n, 0);
    assert(zero.spec_mul(even_step(total, n)) == zero);
    assert(c.spec_mul(total.spec_div(c)) == total);
    if zero.spec_le(total) {
        assert forall|i: usize| i < n implies zero.spec_le(#[trigger] even_param(total, n, i))
            && even_param(total, n, i).spec_le(total) by {
            even_params_rise(total, n, 0, i);
            even_params_rise(total, n, i, (n - 1) as usize);
        }
        assert forall|i: usize| i + 1 < n implies #[trigger] even_param(total, n, i).spec_le(
            even_param(total, n, (i + 1) as usize),
        ) by {
            even_params_rise(total, n, i, (i + 1) as usize);
        }
    }
}

/// Equidistant arc-lengths with exact arithmetic and `0 <= step`: each is
/// non-negative and at most the next one; one that is sampled (not past
/// `len`) is at most `len`; and the last one sampled, whose successor is past
/// `len`, is within `step` of `len` (`len - step < s`).
pub proof fn equidistant_samples_in_range<S: Scalar>(len: S, step: S, k: nat)
    requires
        obeys_exact_arithmetic::<S>(),
        S::spec_zero().spec_le(step),
    ensures
        S::spec_zero().spec_le(equidistant_param(step, k)),
        equidistant_param(step, k).spec_le(equidistant_param(step, k + 1)),
        !len.spec_lt(equidistant_param(step, k)) ==> equidistant_param(step, k).spec_le(len),
        !len.spec_lt(equidistant_param(step, k)) && len.spec_lt(equidistant_param(step, k + 1))
            ==> len.spec_sub(step).spec_lt(equidistant_param(step, k)),
    decreases k,
{
    let zero = S::spec_zero();
    let p = equidistant_param(step, k);
    assert(equidistant_param(step, k + 1) == p.spec_add(step));
    // p <= p + step
    assert(zero.spec_add(p).spec_le(step.spec_add(p)));
    assert(zero.spec_add(p) == p.spec_add(zero));
    assert(step.spec_add(p) == p.spec_add(step));
    if k == 0 {
        assert(zero.spec_le(zero));
    } else {
        equidistant_samples_in_range(len, step, (k - 1) as nat);
    }
    assert(len.spec_lt(p) <==> !p.spec_le(len));
    if !len.spec_lt(p) && len.spec_lt(p.spec_add(step)) {
        let m = len.spec_sub(step);
        if p.spec_le(m) {
            assert(p.spec_add(step).spec_le(m.spec_add(step)));
            assert(m.spec_add(step) == len);
            assert(len.spec_lt(p.spec_add(step)) <==> !p.spec_add(step).spec_le(len));
        }
        assert(m.spec_lt(p) <==> !p.spec_le(m));
    }
}

/// With exact arithmetic and `n >= 2`, the first of `n_samples(path, n)` is
/// the path's start (the sample at `0`) and the last is its end (the sample
/// at `length`).
pub proof fn n_samples_start_and_end<P: Path>(p: P, n: usize)
    requires
        obeys_exact_arithmetic::<P::Scalar>(),
        2 <= n,
    ensures
        p.spec_sample_at(even_param(p.spec_length(), n, 0)) == p.spec_sample_at(
            P::Scalar::spec_zero(),
        ),
        p.spec_sample_at(even_param(p.spec_length(), n, (n - 1) as usize)) == p.spec_sample_at(
            p.spec_length(),
        ),
{
    even_params_span(p.spec_length(), n);
}

/// For a parametric path whose `sample_t(0)` is its start and `sample_t(1)`
/// its end: the single item of `uniform_t(path, 1)` is the start, and with
/// exact arithmetic and `n >= 2` the first of `uniform_t(path, n)` is the
/// start and the last is the end.
pub proof fn uniform_t_start_and_end<P: ParametricPath>(p: P, n: usize)
    requires
        samples_t_at_ends(p),
    ensures
        n == 1 ==> p.spec_sample_t(even_param(P::Scalar::spec_one(), n, 0)) == p.spec_sample_at(
            P::Scalar::spec_zero(),
        ),
        obeys_exact_arithmetic::<P::Scalar>() && 2 <= n ==> {
            &&& p.spec_sample_t(even_param(P::Scalar::spec_one(), n, 0)) == p.spec_sample_at(
                P::Scalar::spec_zero(),
            )
            &&& p.spec_sample_t(even_param(P::Scalar::spec_one(), n, (n - 1) as usize))
                == p.spec_sample_at(p.spec_length())
        },
{
    if obeys_exact_arithmetic::<P::Scalar>() && 2 <= n {
        even_params_span(P::Scalar::spec_one(), n);
    }
}

} // verus!
