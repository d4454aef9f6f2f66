//! Collision shapes for a 2D physics engine: circles and polygons, with
//! per-edge outward normals for separating-axis overlap tests.
//!
//! Coordinates are IEEE-754 single-precision values carried as their `u32`
//! bit patterns, so that the construction logic can be verified while the
//! floating-point operations themselves run behind trusted wrappers; see
//! the `fbits` module.

pub mod fbits;
pub mod collidable;

pub use crate::collidable::Collidable;
pub use crate::collidable::CollidableShape;
pub use crate::collidable::calc_normx;
pub use crate::collidable::calc_normy;
