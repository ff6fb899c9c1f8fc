//! A tower-defense simulation core, verified with Verus.
//!
//! Waves of enemies walk a fixed waypoint path, player-placed towers detect
//! and shoot enemies in range, and the player's health, gold and score are
//! kept by an orchestrator that advances the whole world once per tick.
//!
//! All quantities are fixed-point integers so that every step of the
//! simulation has an exact mathematical description:
//! - positions and distances are in milli-pixels (1000 units = one pixel),
//! - times and cooldowns are in milliseconds,
//! - speeds are in milli-pixels per second,
//! - fire rates are in milli-shots per second (1000 = one shot per second).
use vstd::prelude::*;

pub mod num;
pub mod player;
pub mod map;
pub mod enemy;
pub mod tower;
pub mod powerup;
pub mod game;
pub mod menu;
pub mod gui;

verus! {

/// Positions handled by the simulation stay within this many milli-pixels of
/// the origin on each axis; the bound keeps every distance computation inside
/// `i64` range.
pub const COORD_LIMIT: i64 = 8_388_608;

/// Upper bound on enemy speed, in milli-pixels per second.
pub const SPEED_LIMIT: i64 = 1_000_000;

/// Milliseconds per second: the scale between speeds and per-tick steps.
pub const MS_PER_SECOND: i64 = 1000;

} // verus!
