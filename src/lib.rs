//! Simulation core of an asteroids-style arcade game.
//!
//! All coordinates are fixed-point integers: one screen pixel is `SCALE`
//! units, the origin is the centre of the window, and one call of
//! `World::tick` advances the simulation by one fixed step
//! (`TICKS_PER_SECOND` of them per second).
//!
//! - `geometry`: positions, velocities, the toroidal wrap, bounding boxes.
//! - `ship`, `asteroids`, `bullets`: the three kinds of moving entity.
//! - `collision`: which entities overlap in a tick.
//! - `player`: score and lives.
//! - `world`: the session state machine and the tick.
//! - `actions`, `ui`: input intents and display text.
pub mod actions;
pub mod asteroids;
pub mod bullets;
pub mod collision;
pub mod geometry;
pub mod player;
mod random;
pub mod ship;
pub mod ui;
pub mod world;
