//! A ray-tracing core over fixed-point arithmetic.
//!
//! Every scalar is an `i64` holding a real value scaled by `FX_ONE`
//! (`fx::FX_ONE` units per 1.0). All scalar operations saturate instead of
//! overflowing, so the whole pipeline is total and free of panics.

use vstd::prelude::*;

pub mod camera;
pub mod canvas;
pub mod color;
pub mod fx;
pub mod intersection;
pub mod material;
pub mod matrix;
pub mod pattern;
pub mod point_light;
pub mod ray;
pub mod shape;
pub mod transform;
pub mod tuple;
pub mod world;

pub use fx::{near_equal, EPSILON, FX_MAX, FX_ONE};

verus! {

/// Recursion budget for reflection and refraction bounces.
pub const MAX_REFLECT_DEPTH: i32 = 5;

} // verus!
