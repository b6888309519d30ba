//! Simulation core of a top-down arcade game: fixed-timestep kinematics for
//! circular bodies in a rectangular arena, elastic circle-circle collisions,
//! radius growth/decay with despawn bookkeeping, a timed score-scaled spawner,
//! and a per-zone side-effect state machine.
//!
//! All quantities are fixed-point integers: lengths and speeds carry a factor
//! of 1000 ("milliunits"), durations are microseconds.

pub mod arena;
pub mod body;
pub mod collision;
pub mod config;
pub mod effects;
pub mod integrator;
pub mod lifecycle;
pub mod num;
pub mod player;
mod rng;
pub mod spawner;
pub mod score;
pub mod state;
pub mod world;

