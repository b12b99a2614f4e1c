//! The game's tunable constants.
//!
//! Horizontal and vertical positions are measured in milli-units
//! (thousandths of a pixel), and frame-to-frame time in milliseconds,
//! so a speed of `n` pixels per second is exactly `n` milli-units per
//! millisecond.

use vstd::prelude::*;

verus! {

/// Health a fresh session starts with.
pub const MAX_HEALTH: u8 = 3;

/// Total duration of a jump, in milliseconds (3 seconds).
pub const JUMP_DURATION_MS: u64 = 3000;

/// Peak height of a jump, in milli-units (1000 pixels).
pub const JUMP_PEAK_MU: i64 = 1_000_000;

/// Downward speed of a grounded player, in milli-units per
/// millisecond (300 pixels per second).
pub const PLAYER_FALL_SPEED: i64 = 300;

/// Leftward speed of the environment sprites, in milli-units per
/// millisecond (600 pixels per second).
pub const ROAD_SPEED: i64 = 600;

/// A roadline that scrolls left of this position has left the screen
/// (-675 pixels).
pub const ROADLINE_EXIT_X_MU: i64 = -675_000;

/// Distance a roadline moves right when it wraps (1500 pixels).
pub const ROADLINE_WRAP_MU: i64 = 1_500_000;

/// An obstacle that scrolls left of this position has left the screen
/// (-800 pixels).
pub const OBSTACLE_EXIT_X_MU: i64 = -800_000;

/// Lowest horizontal position a recycled obstacle reappears at
/// (400 pixels), inclusive.
pub const RESPAWN_MIN_MU: i64 = 400_000;

/// Upper bound on the horizontal position a recycled obstacle
/// reappears at (800 pixels), exclusive.
pub const RESPAWN_MAX_MU: i64 = 800_000;

/// Largest frame delta a tick accepts, in milliseconds. Within this
/// bound a single wrap is always enough to bring an exiting roadline
/// back on screen, and all position arithmetic stays in range.
pub const MAX_TICK_DELTA_MS: u64 = 2500;

/// The player's height never exceeds one jump peak above the highest
/// possible jump origin.
pub const PLAYER_Y_MAX_MU: i64 = 2_000_000;

/// Lower bound of the window environment sprite positions stay in:
/// one wrap distance left of the roadline exit threshold.
pub const ENV_X_MIN_MU: i64 = -2_175_000;

/// Upper bound of the window environment sprite positions stay in:
/// the highest position a wrap can produce.
pub const ENV_X_MAX_MU: i64 = 825_000;

} // verus!
