//! Exact triangle-triangle intersection testing in three-dimensional space.
//!
//! Coordinates are integers and every signed volume is evaluated exactly, so
//! the sign comparisons at the heart of the intersection predicate are free of
//! rounding: the result is fully characterized by the contracts below.

pub mod vec3;
pub mod triangle;
pub mod laws;
