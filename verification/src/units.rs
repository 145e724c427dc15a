//! Fixed-point units and the tuning constants of the character.
//!
//! One world unit (a meter, a second) is `SCALE` fixed-point units; every
//! coordinate, speed and duration in this library is an `i64` counted in
//! those thousandths.

use vstd::prelude::*;

verus! {

/// Fixed-point units per world unit: 1.0 in world terms is `SCALE` here.
pub const SCALE: i64 = 1000;

/// World coordinates handled by this library stay within this many
/// fixed-point units of the origin; the bound keeps every product taken by
/// the geometry routines inside `i64`.
pub const COORD_LIMIT: i64 = 1_000_000_000;

/// Positions handled mid-tick (after an alignment moved the character) stay
/// within this many fixed-point units of the origin.
pub const SIM_LIMIT: i64 = 10_000_000_000;

/// Height of the character's capsule (1.0 world units).
pub const PLAYER_HEIGHT: i64 = SCALE;

/// Width of the character's capsule (1.0 world units).
pub const PLAYER_WIDTH: i64 = SCALE;

/// Half the character's height: the offset of its center above its feet.
pub const HALF_PLAYER_HEIGHT: i64 = 500;

/// Horizontal movement speed while grounded or jumping (2.0 units/second);
/// also the cap on the magnitude of the planar movement vector.
pub const MOVEMENT_SPEED: i64 = 2 * SCALE;

/// Vertical climb speed on a ladder (2.0 units/second).
pub const LADDER_SPEED: i64 = 2 * SCALE;

/// Target apex height of a jump impulse (1.0 world units).
pub const JUMP_HEIGHT: i64 = SCALE;

/// Margin under the ladder's bottom bound at which a held Down ends the
/// climb (0.1 world units).
pub const CLIMB_EPSILON: i64 = 100;

/// How far the character is pushed back off the ladder face after climbing
/// past the top: 0.8 of the character's width.
pub const LADDER_EXIT_PUSH: i64 = 800;

/// Reach of the forward interaction probe: 0.8 of the character's width.
pub const PROBE_RANGE: i64 = 800;

/// Duration of one walk animation cycle (0.4 seconds).
pub const WALK_CYCLE: i64 = 400;

/// Phase (in thousandths of a cycle) at which the walk cycle switches from
/// the idle frame to the mid-stride frame.
pub const STRIDE_PHASE: i64 = 600;

} // verus!
