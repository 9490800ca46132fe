//! Simulation core of a small side-scrolling arcade shooter.
//!
//! The crate holds the entity store, the per-frame gameplay systems, the
//! scheduler that orders them and the outer game-state machine. Everything is
//! integer arithmetic: lengths are micro-pixels, durations are microseconds
//! and speeds are pixels per second, so that `speed * duration` is exactly a
//! length.

pub mod access;
pub mod components;
pub mod direction;
pub mod dispatcher;
pub mod entity;
pub mod game_state;
pub mod geometry;
pub mod maintenance;
pub mod math;
pub mod queries;
pub mod random;
pub mod render;
pub mod reset;
pub mod resources;
pub mod scheduler;
pub mod setup;
pub mod storage;
pub mod systems;
pub mod world;
