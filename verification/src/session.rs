//! The mutable record of one game run: health, score and lifecycle
//! flags, together with the player's persistent jump state.

use vstd::prelude::*;

use crate::params::JUMP_DURATION_MS;
use crate::params::JUMP_PEAK_MU;
use crate::params::MAX_HEALTH;

verus! {

/// The player's vertical-motion state. It persists across ticks so a
/// jump animates over its full duration: while a jump is in flight the
/// player's height is recomputed each tick from the recorded origin
/// and the time elapsed since the jump began.
#[derive(Clone, Copy, PartialEq, Eq, Structural, Debug)]
pub struct JumpState {
    /// True while a jump arc is in flight.
    pub jumping: bool,
    /// Milliseconds since the current jump began; 0 when not jumping.
    pub elapsed_ms: u64,
    /// Vertical position (milli-units) at the moment the jump began;
    /// 0 when not jumping.
    pub origin_y_mu: i64,
}

/// The session record for one game run.
pub struct GameState {
    /// Remaining health, between 0 and `MAX_HEALTH`.
    pub health_amount: u8,
    /// Set when health reaches 0; never reverts. Freezes all further
    /// gameplay updates.
    pub lost: bool,
    /// Set on the first tick where the activation key is pressed;
    /// never reverts.
    pub started: bool,
    /// Accumulated score; never decreases while the session runs.
    pub score: u64,
    /// Whole-second clock reading captured when `started` became true;
    /// the baseline for score accumulation.
    pub activation_seconds: u64,
    /// The player's persistent vertical-motion state.
    pub jump: JumpState,
}

impl JumpState {
    /// A jump in flight never outlives its duration, and always starts
    /// from a height the arc's arithmetic can carry: at most one peak
    /// above the ground.
    pub open spec fn wf(self) -> bool {
        self.jumping ==> {
            &&& self.elapsed_ms < JUMP_DURATION_MS
            &&& 0 <= self.origin_y_mu <= JUMP_PEAK_MU
        }
    }
}

impl GameState {
    /// Session invariant: health stays within its initial bound, a lost
    /// session has no health left, and the jump state is well formed.
    pub open spec fn wf(self) -> bool {
        &&& self.health_amount <= MAX_HEALTH
        &&& self.lost ==> self.health_amount == 0
        &&& self.jump.wf()
    }

    /// A fresh session: full health, nothing started, nothing lost,
    /// no score, the player grounded.
    pub fn new() -> (s: GameState)
        ensures
            s.wf(),
            s.health_amount == MAX_HEALTH,
            !s.lost,
            !s.started,
            s.score == 0,
            s.activation_seconds == 0,
            !s.jump.jumping,
            s.jump.elapsed_ms == 0,
            s.jump.origin_y_mu == 0,
    {
        GameState {
            health_amount: MAX_HEALTH,
            lost: false,
            started: false,
            score: 0,
            activation_seconds: 0,
            jump: JumpState { jumping: false, elapsed_ms: 0, origin_y_mu: 0 },
        }
    }
}

} // verus!
