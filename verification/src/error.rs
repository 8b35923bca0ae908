//! Error type for path operations.
//!
//! [`PathError<S>`] is the canonical error of every fallible path query. Every
//! path exposes `type Error: From<PathError<Self::Scalar>>`, so implementers
//! may use an error type of their own.
use vstd::prelude::*;

use core::ops::RangeInclusive;

use crate::scalar::Scalar;
use vstd::string::StringExecFns;

verus! {

/// `<RangeInclusive<Idx> as Clone>::clone`, which the derived `Clone` of
/// [`PathError`] calls. Its documentation says only that it returns a
/// duplicate of the range, so no clause is stated of the result.
pub assume_specification<Idx: Clone>[<RangeInclusive<Idx> as Clone>::clone](
    r: &RangeInclusive<Idx>,
) -> RangeInclusive<Idx>;

/// Errors that can occur during path sampling or geometric queries.
///
/// The scalar parameter `S` lets an error carry the exact parameter value and
/// domain that caused the failure.
#[non_exhaustive]
#[derive(Debug, Clone, PartialEq)]
pub enum PathError<S> {
    /// Arc-length / parameter outside the valid domain.
    OutOfDomain {
        /// The parameter value that was out of domain.
        param: S,
        /// The valid domain `[start, end]`.
        domain: RangeInclusive<S>,
    },
    /// The path is not differentiable at `param` (e.g. a cusp or kink).
    NotDifferentiable {
        /// The parameter where differentiability fails.
        param: S,
        /// Human-readable reason.
        reason: &'static str,
    },
    /// The path is degenerate (e.g. zero-length segment, collinear control points).
    Degenerate {
        /// Human-readable reason.
        reason: &'static str,
    },
    /// A custom error with a static description for implementer-specific failures.
    Custom(&'static str),
}

impl<S: Scalar> PathError<S> {
    /// Create an `OutOfDomain` error with the offending parameter and valid domain.
    pub fn out_of_domain(param: S, domain: RangeInclusive<S>) -> (r: Self)
        ensures
            r == (PathError::OutOfDomain { param, domain }),
    {
        PathError::OutOfDomain { param, domain }
    }

    /// Create a `NotDifferentiable` error with the parameter and reason.
    pub fn not_differentiable(param: S, reason: &'static str) -> (r: Self)
        ensures
            r == (PathError::<S>::NotDifferentiable { param, reason }),
    {
        PathError::NotDifferentiable { param, reason }
    }

    /// Create a `Degenerate` error with a reason.
    pub fn degenerate(reason: &'static str) -> (r: Self)
        ensures
            r == (PathError::<S>::Degenerate { reason }),
    {
        PathError::Degenerate { reason }
    }
}

/// The `Debug` rendering of a value, as `format!("{:?}", x)` produces it.
///
/// Nothing is stated of the text: it is whatever the value's `Debug` impl writes.
#[verifier::external_body]
fn debug_text<T: core::fmt::Debug>(x: &T) -> String {
    format!("{:?}", x)
}

/// The description of an out-of-domain error, given the texts of the
/// parameter and of the domain:
/// `parameter {param_text} is outside the valid domain {domain_text}`.
pub fn out_of_domain_text(param_text: &str, domain_text: &str) -> (r: String)
    ensures
        r@ == "parameter "@ + param_text@ + " is outside the valid domain "@ + domain_text@,
{
    let mut out = String::new();
    out.append("parameter ");
    out.append(param_text);
    out.append(" is outside the valid domain ");
    out.append(domain_text);
    out
}

/// The description of a not-differentiable error, given the text of the
/// parameter: `path is not differentiable at {param_text}: {reason}`.
pub fn not_differentiable_text(param_text: &str, reason: &str) -> (r: String)
    ensures
        r@ == "path is not differentiable at "@ + param_text@ + ": "@ + reason@,
{
    let mut out = String::new();
    out.append("path is not differentiable at ");
    out.append(param_text);
    out.append(": ");
    out.append(reason);
    out
}

/// The description of a degenerate-path error: `path is degenerate: {reason}`.
pub fn degenerate_text(reason: &str) -> (r: String)
    ensures
        r@ == "path is degenerate: "@ + reason@,
{
    let mut out = String::new();
    out.append("path is degenerate: ");
    out.append(reason);
    out
}

impl<S: core::fmt::Debug> PathError<S> {
    /// The human-readable description of the error, with the `Debug` texts
    /// of the parameter and the domain laid out by [`out_of_domain_text`]
    /// and [`not_differentiable_text`]:
    ///
    /// - `OutOfDomain`: `parameter {param:?} is outside the valid domain {domain:?}`
    /// - `NotDifferentiable`: `path is not differentiable at {param:?}: {reason}`
    /// - `Degenerate`: `path is degenerate: {reason}`
    /// - `Custom`: the message itself.
    pub fn message(&self) -> (r: String)
        ensures
            match self {
                PathError::OutOfDomain { .. } => exists|p: Seq<char>, d: Seq<char>|
                    r@ == "parameter "@ + p + " is outside the valid domain "@ + d,
                PathError::NotDifferentiable { reason, .. } => exists|p: Seq<char>|
                    r@ == "path is not differentiable at "@ + p + ": "@ + reason@,
                PathError::Degenerate { reason } => r@ == "path is degenerate: "@ + reason@,
                PathError::Custom(msg) => r@ == msg@,
            },
    {
        match self {
            PathError::OutOfDomain { param, domain } => {
                let p = debug_text(param);
                let d = debug_text(domain);
                out_of_domain_text(p.as_str(), d.as_str())
            },
            PathError::NotDifferentiable { param, reason } => {
                let p = debug_text(param);
                not_differentiable_text(p.as_str(), reason)
            },
            PathError::Degenerate { reason } => degenerate_text(reason),
            PathError::Custom(msg) => {
                let mut out = String::new();
                out.append(msg);
                out
            },
        }
    }
}

} // verus!
