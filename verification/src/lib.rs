//! A small 2D engine core: an entity/component world with per-frame system
//! dispatch, axis-aligned collision detection and resolution, and a
//! fixed-timestep physics accumulator.
//!
//! All coordinates, times and rates are fixed-point numbers ([`fixed::Fx`]),
//! so every operation of the engine has an exact arithmetic meaning.

pub mod collision;
pub mod ecs;
pub mod fixed;
pub mod physics_world;
pub mod vec2;
