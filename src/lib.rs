//! A small fixed-point physics core for a 3D game: rigid bodies under gravity
//! and applied forces, semi-implicit Euler integration, and axis-aligned box
//! collision resolution against static obstacles and between moving bodies.
//!
//! Every quantity is a fixed-point number stored in an `i64` as millionths of
//! a unit (see [`fixed`]), so the whole simulation is deterministic and its
//! arithmetic is stated and proved exactly.

pub mod fixed;
pub mod vec3;
pub mod physics;
pub mod laws;
