//! The point a given fraction of the way along a segment or a path, measured
//! by Euclidean arc length.
//!
//! `scalar` describes the coordinate number type, `geometry` the shapes and
//! their lengths, `interpolate` the interpolation itself, and `laws` what
//! holds of it across inputs.

use vstd::prelude::*;

pub mod geometry;
pub mod interpolate;
pub mod laws;
pub mod scalar;

verus! {

} // verus!
