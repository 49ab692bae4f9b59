//! A stochastic offline renderer: scenes of geometric primitives carrying
//! surface materials are sampled by Monte Carlo path tracing, producing a
//! raster of colors.
//!
//! All geometry and radiometry is carried in a fixed-point scalar format
//! (`fixed`): a real value `x` is stored as the integer `x * fixed::SCALE`,
//! rounded toward zero, and arithmetic saturates at a huge bound that plays
//! the role infinities play for floating point.  Every quantity the renderer
//! computes is therefore a plain integer with an exact contract.

pub mod fixed;
pub mod vec;
pub mod ray;
pub mod aabb;
pub mod util;
pub mod approx;
pub mod quaternion;
pub mod sphere;
pub mod cuboid;
pub mod hittable;
pub mod hittable_list;
pub mod bvh;
pub mod modify;
pub mod constant_medium;
pub mod texture;
pub mod material;
pub mod camera;
pub mod renderer;

use vstd::prelude::*;

verus! {

/// Offset applied along a surface normal when respawning a scattered ray, so
/// that the new ray does not immediately re-intersect the surface it left.
/// This is the fixed-point image of a small absolute constant (about 1e-4);
/// it is deliberately independent of scene scale.
pub const EPSILON: i128 = 7;

} // verus!
