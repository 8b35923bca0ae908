//! Path transform adapters.
//!
//! - [`Reverse`]: reverses the direction of the inner path
//! - [`Concat`]: joins two paths end-to-end
//! - [`Offset`]: offsets the path by a constant distance
//!
//! The [`PathExt`] extension trait offers these adapters as methods on any
//! type implementing [`Path`].
use vstd::prelude::*;

pub mod concat;
pub mod offset;
pub mod reverse;

pub use concat::Concat;
pub use offset::Offset;
pub use reverse::Reverse;

use crate::differential::{Heading, Tangent};
use crate::path::Path;

verus! {

/// Extension trait for path adapters: `reverse()`, `concat()` and
/// `offset()` as methods on any path.
pub trait PathExt: Path + Sized {
    /// Reverse the path direction.
    fn reverse(self) -> (r: Reverse<Self>)
        ensures
            r.inner() == self,
    ;

    /// Concatenate this path with another, compatible path.
    fn concat<Q>(self, other: Q) -> (r: Concat<Self, Q>) where
        Q: Path<Scalar = Self::Scalar, Point = Self::Point, Error = Self::Error>,

        ensures
            r.first() == self,
            r.second() == other,
    ;

    /// Offset the path by a distance `d`. Requires tangent and heading support.
    fn offset(self, d: Self::Scalar) -> (r: Offset<Self, Self::Scalar>) where
        Self: Tangent + Heading,

        ensures
            r.inner() == self,
            r.distance() == d,
    ;
}

impl<P: Path + Sized> PathExt for P {
    fn reverse(self) -> Reverse<Self> {
        Reverse::new(self)
    }

    fn concat<Q>(self, other: Q) -> Concat<Self, Q> where
        Q: Path<Scalar = Self::Scalar, Point = Self::Point, Error = Self::Error>,
     {
        Concat::new(self, other)
    }

    fn offset(self, d: Self::Scalar) -> Offset<Self, Self::Scalar> where Self: Tangent + Heading {
        Offset::new(self, d)
    }
}

} // verus!
