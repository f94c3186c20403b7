//! Generic two- and three-dimensional vectors over primitive integer scalars,
//! with machine-checked contracts for every operation.
//!
//! A scalar type is read as a bounded range of mathematical integers
//! ([`scalar::Scalar`]); a vector is read as a pair or triple of integers
//! ([`math::MathVec2`], [`math::MathVec3`]).  Every operation states its result
//! in terms of that reading, and asks of its caller exactly that the result be
//! representable in the scalar type.
pub mod identities;
pub mod math;
pub mod message;
pub mod prelude;
pub mod scalar;
pub mod vecs;

pub use crate::scalar::NumVec;
pub use crate::scalar::Scalar;
