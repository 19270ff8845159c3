//! A 2.5D ray-casting engine over a small 2D polygonal map.
//!
//! All world coordinates and angles are fixed-point integers: lengths are in
//! milli-units (one thousandth of a world unit) and angles in milli-degrees.
//! Every quantity a frame needs — trigonometry, ray/segment intersection,
//! perspective column heights, frustum culling — is computed exactly over
//! these integers, so the whole engine is verified end to end; the drawing
//! surface that consumes the emitted primitives lives outside the library.

use vstd::prelude::*;

pub mod arith;
pub mod geometry;
pub mod project;
pub mod raycast;
pub mod scene;
pub mod trig;

pub use geometry::Point;
pub use geometry::Wall;

verus! {

/// Largest magnitude, in milli-units, a world coordinate may have.
pub const COORD_LIMIT: i64 = 1_000_000_000;

} // verus!
