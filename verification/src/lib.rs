//! Core of a small arcade simulation: a player sweeps a vertical track,
//! charges a timed "hold" that arms a strike region, and releasing an armed
//! hold smashes every active target whose hitbox the region overlaps.
//!
//! All coordinates are whole pixels; the hold accumulator counts tenths of a
//! charge unit, so the thresholds below are ten times the charge-unit values.

use vstd::prelude::*;

pub mod player;
mod rng;
pub mod sim;
pub mod smashable;

verus! {

/// Height of the vertical track the player wraps around.
pub const WINDOW_H: u32 = 700;

/// Horizontal position of the player (fixed; the player only moves vertically).
pub const PLAYER_X: u32 = 195;
/// Vertical start position of the player.
pub const PLAYER_Y: u32 = 20;
/// Pixels the player walks down per tick while not holding.
pub const PLAYER_WALKING_SPEED: u32 = 2;

/// Width of the strike region.
pub const HITAREA_W: u32 = 128;
/// Height of the strike region, and its vertical offset below the player.
pub const HITAREA_H: u32 = 32;

/// Hold accumulator value set when a hold begins (tenths of a charge unit).
pub const PLAYER_HOLDING_SEED: u32 = 1;
/// Hold accumulator increment per charge step (tenths of a charge unit).
pub const PLAYER_HOLDING_SPEED: u32 = 3;
/// The strike is armed only strictly above this accumulator value.
pub const PLAYER_HOLDING_TIME_MIN: u32 = 40;
/// Above this accumulator value the hold auto-releases to zero.
pub const PLAYER_HOLDING_TIME_MAX: u32 = 60;

/// Horizontal position of the left spawn lane.
pub const SMASHABLE_X_LEFT: u32 = 135;
/// Horizontal position of the right spawn lane.
pub const SMASHABLE_X_RIGHT: u32 = 255;
/// Lowest vertical position a target can spawn at.
pub const SMASHABLE_SPAWN_BASE: u32 = 100;
/// Height of the vertical band targets spawn in.
pub const SMASHABLE_SPAWN_SPAN: u32 = 550;
/// How many targets a simulation spawns.
pub const SMASHABLES_PER_SCREEN: u32 = 13;
/// Side of a target's square hitbox.
pub const SMASHABLE_SIZE: u32 = 64;

} // verus!
