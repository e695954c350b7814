//! The fixed numeric constants of the game: canvas geometry, physics steps,
//! pipe geometry and timing. They form the protocol between the simulation,
//! the renderer and the host page.
//!
//! Lengths and speeds are fixed-point: `SUBUNITS_PER_PIXEL` subunits make one
//! pixel, so the per-tick gravity (0.125 px) and the flap impulse (3.6 px) are
//! exact integers. Angles are fixed-point too: `ROT_UNITS_PER_DEGREE` units
//! make one degree, so both rotation formulas land on integers.

use vstd::prelude::*;

verus! {

/// Fixed-point scale for lengths: subunits per pixel.
pub const SUBUNITS_PER_PIXEL: i64 = 40;

/// Play area width (552 px).
pub const CANVAS_WIDTH: i64 = 22080;

/// Play area height (480 px).
pub const CANVAS_HEIGHT: i64 = 19200;

/// Downward acceleration per tick while playing (0.125 px).
pub const GRAVITY: i64 = 5;

/// Magnitude of the upward flap impulse (3.6 px).
pub const THRUST: i64 = 144;

/// Vertical gap between a pipe pair's top and bottom barrier (90 px).
pub const PIPE_GAP: i64 = 3600;

/// Height of the top barrier's sprite (400 px).
pub const PIPE_TOP_HEIGHT: i64 = 16000;

/// Lowest gap offset a spawned pipe may get (-350 px).
pub const PIPE_Y_MIN: i64 = -14000;

/// One past the highest gap offset a spawned pipe may get (-150 px).
pub const PIPE_Y_MAX: i64 = -6000;

/// Width of a pipe sprite (52 px).
pub const PIPE_WIDTH: i64 = 2080;

/// Side length of the bird's square sprite (34 px).
pub const BIRD_SIZE: i64 = 1360;

/// Half the bird's side length; the bird's extent is its center plus or minus
/// this much.
pub const BIRD_HALF_SIZE: i64 = 680;

/// Height of the ground strip at the bottom of the canvas (112 px).
pub const GROUND_HEIGHT: i64 = 4480;

/// Height of the background sprite (228 px).
pub const BACKGROUND_HEIGHT: i64 = 9120;

/// Vertical position of the ground line.
pub const GROUND_Y: i64 = CANVAS_HEIGHT - GROUND_HEIGHT;

/// The bird's fixed horizontal position (80 px).
pub const BIRD_X: i64 = 3200;

/// The bird's vertical position at the start of a run (80 px).
pub const BIRD_START_Y: i64 = 3200;

/// How far every pipe moves left per tick (2 px).
pub const PIPE_STEP: i64 = 80;

/// Wall-clock period of the pipe spawner in milliseconds.
pub const SPAWN_PERIOD_MS: u64 = 2000;

/// Vertical position of the background sprite's top edge.
pub const BACKGROUND_Y: i64 = CANVAS_HEIGHT - BACKGROUND_HEIGHT;

/// Half the play area width (`CANVAS_WIDTH` / 2); where the second tiled
/// background copy starts.
pub const CANVAS_HALF_WIDTH: i64 = 11040;

/// After this many ticks the ground scroll wraps around
/// (`CANVAS_WIDTH` / `PIPE_STEP`).
pub const GROUND_SCROLL_TICKS: u64 = 276;

/// Fixed-point scale for angles: units per degree.
pub const ROT_UNITS_PER_DEGREE: i64 = 48;

/// Nose-down rotation clamp while rising (-30 degrees).
pub const ROT_MIN: i64 = -1440;

/// Nose-up rotation clamp while falling (90 degrees).
pub const ROT_MAX: i64 = 4320;

/// How much the bird rotates nose-up per tick while tumbling after a
/// collision (3 degrees).
pub const ROT_FALL_STEP: i64 = 144;

/// Number of sprite frames in the bird's animation cycle.
pub const ANIM_FRAMES: usize = 4;

/// The animation advances one sprite frame every this many ticks.
pub const ANIM_PERIOD: u64 = 5;

/// Rotation units per unit of speed while rising: the nose-down clamp of 30
/// degrees is reached at the full flap impulse, so the slope is
/// 30 * `ROT_UNITS_PER_DEGREE` / `THRUST`.
pub const ROT_RISE_SLOPE: i64 = 10;

/// Rotation units per unit of speed while falling: 45 degrees per flap
/// impulse of downward speed, so the slope is
/// 45 * `ROT_UNITS_PER_DEGREE` / `THRUST`.
pub const ROT_FALL_SLOPE: i64 = 15;

/// Largest speed magnitude at which a tick still advances the physics. A
/// session would have to run for centuries to reach it; past it the update
/// freezes so that the arithmetic below stays exact.
pub const SPEED_LIMIT: i64 = 1_000_000_000_000;

/// Bound on the speed magnitude of any state the simulation hands out: one
/// tumbling step past `SPEED_LIMIT`.
pub const SPEED_BOUND: i64 = SPEED_LIMIT + 2 * GRAVITY;

/// Largest position magnitude at which a tick still advances the physics.
pub const Y_LIMIT: i64 = 1_000_000_000_000_000;

/// Bound on the position magnitude of any state the simulation hands out:
/// one step past `Y_LIMIT`.
pub const Y_BOUND: i64 = Y_LIMIT + SPEED_BOUND;

/// Largest score at which a tick still advances the physics.
pub const SCORE_LIMIT: i64 = 1_000_000_000_000;

/// Bound on the score of any state the simulation hands out.
pub const SCORE_BOUND: i64 = SCORE_LIMIT + 1;

/// Largest frame-counter value at which a tick still advances; the counter
/// is monotonic and never wraps.
pub const TICK_LIMIT: u64 = 1_000_000_000_000_000_000;

} // verus!
