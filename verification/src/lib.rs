//! A fixed-timestep 2D arcade-shooter simulation: a player ship, spawned
//! enemies (drifting meteors and homing drills), shot volleys, boundary
//! culling and pairwise collision resolution, all inside a bounded arena.
//!
//! Coordinates are integers in milli-units: one arena unit is 1000. This
//! keeps every position and velocity exact and lets every rule of the
//! simulation be stated and proved as arithmetic.

use vstd::prelude::*;

pub mod collider;
pub mod culler;
pub mod entity;
pub mod geom;
pub mod homing;
pub mod mover;
pub mod rng;
pub mod sim;
pub mod spawner;
pub mod store;
pub mod tick;

verus! {

/// Milli-units per arena unit: the scale of every coordinate and velocity.
pub const UNIT: i64 = 1000;

/// Arena width in milli-units (600 units).
pub const BOUNDS_X: i64 = 600_000;

/// Arena height in milli-units (600 units).
pub const BOUNDS_Y: i64 = 600_000;

/// Half of the arena width: clamped positions satisfy |x| <= HALF_X.
pub const HALF_X: i64 = 300_000;

/// Half of the arena height: clamped positions satisfy |y| <= HALF_Y.
pub const HALF_Y: i64 = 300_000;

/// How far past the half-extents an entity may drift before it is culled.
pub const CULL_MARGIN: i64 = 40_000;

/// Culling limit on |x| for entities that carry a constant velocity.
pub const CULL_X: i64 = 340_000;

/// Culling limit on |y| for entities that carry a constant velocity.
pub const CULL_Y: i64 = 340_000;

/// Upward speed of a shot, in milli-units per tick (10 units).
pub const SHOT_SPEED: i64 = 10_000;

/// A volley of two shots fires once every SHOT_INTERVAL ticks.
pub const SHOT_INTERVAL: u8 = 4;

/// Horizontal offset of each shot of a volley from the player (6 units).
pub const SHOT_OFFSET_X: i64 = 6_000;

/// Vertical offset of each shot of a volley from the player (20 units).
pub const SHOT_OFFSET_Y: i64 = 20_000;

/// Speed of a homing drill enemy, in milli-units per second (200 units).
pub const ENEMY_SPEED: i64 = 200_000;

/// Fixed simulation rate: ticks per second.
pub const TICKS_PER_SECOND: i64 = 60;

/// Distance a drill covers per tick: ENEMY_SPEED / TICKS_PER_SECOND,
/// rounded down to whole milli-units.
pub const DRILL_STEP: i64 = 3_333;

/// Full speed of a meteor, in milli-units per tick (4 units).
pub const METEOR_SPEED: i64 = 4_000;

/// Distance the player covers per tick per pressed direction (10 units).
pub const PLAYER_SPEED: i64 = 10_000;

/// No stored velocity component ever exceeds this magnitude.
pub const VEL_LIMIT: i64 = 10_000;

/// Vertical spawn position of a drill enemy: the arena's top edge,
/// one full half-extent above the clamped band.
pub const DRILL_SPAWN_Y: i64 = 600_000;

/// Half-extents of the player's collision box (a 20 x 20 unit sprite).
pub const PLAYER_HALF_X: i64 = 10_000;
pub const PLAYER_HALF_Y: i64 = 10_000;

/// Half-extents of an enemy's collision box (a 64 x 64 unit sprite).
pub const ENEMY_HALF_X: i64 = 32_000;
pub const ENEMY_HALF_Y: i64 = 32_000;

/// Half-extents of a shot's collision box (a 2 x 4 unit sprite).
pub const SHOT_HALF_X: i64 = 1_000;
pub const SHOT_HALF_Y: i64 = 2_000;

} // verus!
