//! Tuning constants of the simulation.
//!
//! Lengths, speeds and accelerations are fixed-point: they carry a factor of
//! `SCALE` milliunits per arena unit. Durations are microseconds. Speeds are
//! per second, so one integration step scales by `dt / MICROS`.

use vstd::prelude::*;

verus! {

/// Milliunits per arena unit: every length, speed or acceleration is stored
/// multiplied by this factor.
pub const SCALE_MILLI: i64 = 1000;

/// Microseconds per second.
pub const MICROS: i64 = 1_000_000;

// Safety caps. Every body field is kept inside these bounds by explicit
// clamps, which proves all the fixed-point products free of overflow. The
// caps are far outside anything the game dynamics can reach, so the clamps
// are inert in play.
/// Cap on the magnitude of any position coordinate.
pub const POS_CAP: i64 = 16_000_000;
/// Cap on the magnitude of any velocity component.
pub const VEL_CAP: i64 = 4_000_000;
/// Cap on the magnitude of any acceleration component.
pub const ACC_CAP: i64 = 2_000_000;
/// Cap on a single timestep handed to the integrator: one second.
pub const DT_CAP: i64 = 1_000_000;
/// Cap on a body radius.
pub const R_CAP: i64 = 200_000;
/// Cap on the magnitude of an arena bound.
pub const ARENA_CAP: i64 = 1_000_000;
/// Cap at which the risk accumulators saturate.
pub const RISK_CAP: i64 = 1_000_000_000;

/// Target-radius damage a player bullet deals to a cell.
pub const PLAYER_BULLET_DAMAGE: i64 = 12_000;
/// Risk added to a zone by each bullet that leaves through the top.
pub const PLAYER_BULLET_EFFECT_RISK: i64 = 10;
/// Damage dealt to both cells when two cells of different types collide.
pub const CELL_INTERCOLLISION_DAMAGE: i64 = 8_000;
/// Damage dealt when the player touches a cell in no-shooting mode.
pub const PLAYER_COLLISION_DAMAGE: i64 = 12_000;
/// How long an armed side effect stays active.
pub const SIDE_EFFECT_DURATION: i64 = 16_000_000;
/// Risk consumed by one successful side-effect activation; also the bound of
/// the activation roll, so a risk at or above it always activates.
pub const RISK_THRESHOLD: i64 = 100;

/// Radius of a freshly spawned cell.
pub const SPAWN_RADIUS: i64 = 45_000;
/// Below this radius a cell's target radius is forced to zero.
pub const CRITICAL_RADIUS: i64 = 16_000;
/// Below this radius a cell is removed.
pub const DESPAWN_RADIUS: i64 = 5_000;
/// Rate at which a radius eases toward its target, per second.
pub const RADIUS_EASE_RATE: i64 = 100_000;
/// Rate at which a cell's private top bound recedes upward, per second.
pub const CELL_TOP_SCROLL: i64 = 100_000;
/// Offset and divisor of the pass-credit scale `(radius + 5) / 50`.
pub const PASS_RADIUS_OFFSET: i64 = 5_000;
pub const PASS_RADIUS_DIV: i64 = 50_000;

pub const BULLET_RADIUS: i64 = 4_000;
pub const BULLET_SPEED: i64 = 600_000;
pub const BULLET_ELASTICITY: i64 = 900;
/// A bullet above `top + BULLET_EXIT_MARGIN` has missed and is removed.
pub const BULLET_EXIT_MARGIN: i64 = 120_000;

pub const PLAYER_RADIUS: i64 = 15_000;
pub const PLAYER_ELASTICITY: i64 = 500;
/// Magnitude of the player's steering acceleration.
pub const PLAYER_ACCEL: i64 = 700_000;
/// Component of the same magnitude along each axis of a diagonal,
/// `PLAYER_ACCEL / sqrt(2)` rounded to milliunits.
pub const PLAYER_ACCEL_DIAG: i64 = 494_975;
/// Minimum time between two player shots.
pub const SHOOT_COOLDOWN: i64 = 250_000;

/// Period of the cell spawner.
pub const SPAWN_INTERVAL: i64 = 10_000_000;
pub const CELL_ELASTICITY: i64 = 900;
/// Constant downward acceleration of spawned cells.
pub const CELL_FALL_ACC: i64 = 25_000;
/// Base horizontal speed jitter of spawned cells.
pub const SPAWN_X_JITTER_BASE: i64 = 75_000;
/// Extra random downward speed of spawned cells.
pub const SPAWN_Y_EXTRA: i64 = 100_000;

/// Upward velocity kick a bullet hit gives a cell.
pub const KNOCKBACK_VEL: i64 = 200_000;
/// Downward acceleration a bullet hit adds to a cell.
pub const KNOCKBACK_ACC: i64 = 50_000;

/// Horizontal start of the left side-effect zone (bodies left of it).
pub const LEFT_ZONE_X: i64 = -100_000;
/// Horizontal start of the right side-effect zone (bodies right of it).
pub const RIGHT_ZONE_X: i64 = 100_000;

/// Numerator and denominator of the soft positional-correction factor.
pub const PUSH_NUM: i64 = 6;
pub const PUSH_DEN: i64 = 10;

/// Patient health at game start, also its ceiling.
pub const HP_START: i32 = 100;
/// Health the patient loses when one of their blood cells is destroyed.
pub const BLOOD_DESTROY_HP: i32 = 10;
/// Pass-credit base of a blood cell that exits through the bottom.
pub const BLOOD_PASS_HP: i32 = 1;
/// Pass-credit base of a germ that exits through the bottom (a penalty).
pub const GERM_PASS_HP: i32 = -10;

} // verus!
