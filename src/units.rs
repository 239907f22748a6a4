//! Fixed-point units shared by the whole simulation.
//!
//! Time steps are whole milliseconds. The other units are chosen so that
//! `velocity + acceleration * dt` and `position + velocity * dt` need no
//! rescaling: an acceleration unit times a millisecond is a velocity unit,
//! and a velocity unit times a millisecond is a position unit.

use vstd::prelude::*;

verus! {

/// Position units in one unit of length (one screen point).
pub const POSITION_SCALE: i64 = 10_000_000;

/// Velocity units in one unit of length per second.
pub const VELOCITY_SCALE: i64 = 10_000;

/// Acceleration units in one unit of length per second squared.
pub const ACCELERATION_SCALE: i64 = 10;

/// Life of a freshly emitted particle (life 1.0).
pub const FULL_LIFE: i64 = 10_000;

/// Life lost per millisecond (0.5 per second).
pub const LIFE_DECAY_PER_MS: i64 = 5;

/// Downward gravity used by the system step: 98.1 units per second squared.
pub const GRAVITY: i64 = 981;

/// Extra downward acceleration inside the tube: 200 units per second squared.
pub const TUBE_FLOW_ACCELERATION: i64 = 2_000;

/// Sideways acceleration below the tube's end when the T-junction is on:
/// 100 units per second squared.
pub const BRANCH_FLOW_ACCELERATION: i64 = 1_000;

/// Most particles a system holds at once.
pub const MAX_PARTICLES: usize = 1000;

/// Offset of the container's top-left corner from the origin: 50 units.
pub const CONTAINER_ORIGIN: i64 = 50 * POSITION_SCALE;

/// Particles appear 50 units above the container's bottom.
pub const SURFACE_DEPTH: i64 = 50 * POSITION_SCALE;

/// Half-width of the tube around its centre line: 10 units.
pub const TUBE_RADIUS: i64 = 10 * POSITION_SCALE;

/// Horizontal offset of the T-junction's end from the tube's end: 50 units.
pub const BRANCH_OFFSET: i64 = 50 * POSITION_SCALE;

/// Emitted particles start with a downward speed below 50 units per second.
pub const MAX_SPAWN_SPEED: i64 = 50 * VELOCITY_SCALE;

/// Largest time step, in milliseconds, that one system update accepts.
pub const MAX_STEP_MS: i64 = 1000;

/// Largest container width, container height or tube length: a million units.
pub const MAX_EXTENT: i64 = 1_000_000 * POSITION_SCALE;

} // verus!
