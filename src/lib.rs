//! Movement logic for navigation-driven enemy agents and checkpoint respawn.
//!
//! All quantities are fixed point: lengths in nanometres, velocities in
//! nanometres per second, durations in microseconds.
pub mod checkpoints;
pub mod enemy;
pub mod geometry;
pub mod gravity;
pub mod ground;
pub mod pipeline;
pub mod steering;
pub mod targeting;
