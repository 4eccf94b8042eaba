//! A verified 2D rigid-body physics core for a tile-based platformer.
//!
//! The library models world geometry with exact integer coordinates: a
//! coordinate is an `i64` in whatever fixed-point unit the caller picks
//! (for example hundredths of a world unit).  All three simulation stages
//! — gravity, velocity integration, and axis-aligned bounding-box (AABB)
//! collision resolution — are pure integer computations with contracts
//! that pin down every output exactly.

pub mod vec2;
pub mod physics;
pub mod laws;
pub mod controller;
pub mod tiles;
