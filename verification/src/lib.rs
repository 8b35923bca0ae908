//! Generic traits for parametric paths, segments and geometric queries.
//!
//! The traits decouple geometric queries (sampling by arc-length, tangents,
//! curvature, projection, composition) from the representation of a curve.
//! Each trait declares spec functions for its queries, and every provided
//! method, adapter ([`Reverse`], [`Concat`], [`Offset`]) and sampler carries a
//! contract stated over them.
//!
//! A query `q` of a trait comes with a spec function `spec_q`. Its default
//! body leaves the value unspecified; a verified implementation gives it
//! meaning by overriding it, and generic code only ever relies on the link
//! between the executable method and its spec function. (The defaults exist
//! so that plain Rust code can implement the traits at all; for such an
//! implementation, which defines no spec function, the contracts say nothing
//! about the values it computes.)
pub mod differential;
pub mod error;
pub mod path;
pub mod point;
pub mod project;
pub mod sampler;
pub mod scalar;
pub mod segment;
pub mod transform;

pub use differential::{BishopFrame, Curved, FrenetFrame, Heading, Tangent};
pub use error::PathError;
pub use path::{ParametricPath, Path};
pub use point::{Point, Vector};
pub use project::Project;
pub use sampler::{equidistant, n_samples, uniform_t, Equidistant};
pub use scalar::{Negate, Scalar};
pub use segment::{PathSegment, SegmentedPath};
pub use transform::{Concat, Offset, PathExt, Reverse};
