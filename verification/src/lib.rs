//! Decision kernel of a watertight ray-triangle intersection test.
//!
//! The test shears a triangle into a frame in which the ray runs along the
//! dominant axis of its direction, and then decides from the signs of three
//! scaled barycentric coordinates, of their sum and of a scaled distance
//! whether the ray hits. This crate holds every decision of that test. The
//! numbers themselves are IEEE-754 single-precision values that the caller
//! computes; they are handed over as raw bit patterns, and every decision is
//! taken on the pattern, so that signed zeros and NaNs are covered by the
//! contracts like any other value.

pub mod axes;
pub mod coordinates;
pub mod intersect;
pub mod single;
