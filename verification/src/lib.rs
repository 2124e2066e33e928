//! A verified model of a small top-down isometric action game.
//!
//! The library owns the game's logic: geometry and collision tests, the
//! sprite-atlas model, procedural isometric map layout, the entity and world
//! models, the input, time and collision controllers, and the per-frame
//! orchestration. All coordinates are exact fixed-point integers in
//! milli-units (one thousandth of a game unit), time is counted in
//! milliseconds, and facing directions in milli-turns, so every rule is
//! stated and proved without floating point.

pub mod app_state;
pub mod atlas;
pub mod collisions;
pub mod enemy;
pub mod events;
pub mod game_state;
pub mod geometry;
pub mod input;
pub mod landscape;
pub mod map;
pub mod player;
pub mod powerup;
mod rng;
pub mod sound;
pub mod time;
pub mod trig;
pub mod world;

use vstd::prelude::*;

verus! {

/// Largest magnitude, in milli-units, that any world coordinate may take.
pub const COORD_LIMIT: i64 = 1_000_000_000;


} // verus!
