//! The player's vertical motion: a grounded fall clamped at ground
//! level, and a parabolic jump arc.
//!
//! A jump lasts `JUMP_DURATION_MS` and lifts the player by
//! `JUMP_PEAK_MU` at its midpoint; its displacement returns to zero at
//! the end of the duration. The arc ends exactly when the elapsed time
//! reaches the duration: the parabola is never evaluated past its
//! domain, and the player lands back at the jump's origin.

use vstd::prelude::*;

use crate::params::JUMP_DURATION_MS;
use crate::params::JUMP_PEAK_MU;
use crate::params::MAX_TICK_DELTA_MS;
use crate::params::PLAYER_FALL_SPEED;
use crate::params::PLAYER_Y_MAX_MU;
use crate::session::JumpState;

verus! {

/// Vertical displacement of the jump arc `t_ms` milliseconds after
/// the jump began: the downward-opening parabola
/// `4·H·t·(D − t) / D²`, which is 0 at `t = 0` and `t = D` and
/// reaches the peak `H` at `t = D/2`.
pub open spec fn spec_jump_offset(t_ms: int) -> int {
    (4 * (JUMP_PEAK_MU as int) * t_ms * ((JUMP_DURATION_MS as int) - t_ms))
        / ((JUMP_DURATION_MS as int) * (JUMP_DURATION_MS as int))
}

/// Where a grounded player falls to in `dt_ms` milliseconds: down at
/// the fixed fall speed, clamped at ground level 0.
pub open spec fn spec_fall_y(y_mu: int, dt_ms: int) -> int {
    if y_mu - (PLAYER_FALL_SPEED as int) * dt_ms <= 0 {
        0
    } else {
        y_mu - (PLAYER_FALL_SPEED as int) * dt_ms
    }
}

/// One tick of the vertical-motion state machine: the jump state and
/// player height after a tick that sees jump state `j`, player height
/// `y_mu`, the jump key `jump_pressed`, and frame delta `dt_ms`.
///
/// A jump begins when the key is pressed while not already jumping,
/// recording the current height as the origin. While a jump is in
/// flight the height is the origin plus the arc's displacement at the
/// elapsed time; when the elapsed time reaches the jump's duration the
/// player lands back at the origin. Otherwise the player falls.
pub open spec fn next_motion(j: JumpState, y_mu: int, jump_pressed: bool, dt_ms: int) -> (
    JumpState,
    int,
) {
    if j.jumping || jump_pressed {
        let origin = if j.jumping {
            j.origin_y_mu as int
        } else {
            y_mu
        };
        let elapsed = (if j.jumping {
            j.elapsed_ms as int
        } else {
            0
        }) + dt_ms;
        if elapsed >= JUMP_DURATION_MS {
            (JumpState { jumping: false, elapsed_ms: 0, origin_y_mu: 0 }, origin)
        } else {
            (
                JumpState { jumping: true, elapsed_ms: elapsed as u64, origin_y_mu: origin as i64 },
                origin + spec_jump_offset(elapsed),
            )
        }
    } else {
        (j, spec_fall_y(y_mu, dt_ms))
    }
}

/// The law of the jump arc: no displacement at the start and end of a
/// jump, the full peak at the midpoint, and a displacement that never
/// leaves `[0, JUMP_PEAK_MU]` anywhere within the jump's duration.
pub proof fn lemma_jump_arc(t_ms: int)
    requires
        0 <= t_ms <= JUMP_DURATION_MS,
    ensures
        spec_jump_offset(0) == 0,
        spec_jump_offset(JUMP_DURATION_MS as int) == 0,
        spec_jump_offset((JUMP_DURATION_MS as int) / 2) == JUMP_PEAK_MU,
        0 <= spec_jump_offset(t_ms) <= JUMP_PEAK_MU,
{
    assert(4 * 1_000_000 * t_ms * (3000 - t_ms) >= 0) by (nonlinear_arith)
        requires
            0 <= t_ms <= 3000,
    ;
    assert(4 * 1_000_000 * t_ms * (3000 - t_ms) <= 9_000_000_000_000) by (nonlinear_arith)
        requires
            0 <= t_ms <= 3000,
    ;
}

/// Executable jump-arc displacement, exact against `spec_jump_offset`.
pub fn jump_offset_mu(t_ms: u64) -> (r: i64)
    requires
        t_ms <= JUMP_DURATION_MS,
    ensures
        r == spec_jump_offset(t_ms as int),
        0 <= r <= JUMP_PEAK_MU,
{
    proof {
        lemma_jump_arc(t_ms as int);
        assert(t_ms * (JUMP_DURATION_MS - t_ms) <= 2_250_000) by (nonlinear_arith)
            requires
                t_ms <= 3000 && JUMP_DURATION_MS == 3000,
        ;
    }
    let prod: u64 = t_ms * (JUMP_DURATION_MS - t_ms);
    let num: u64 = 4_000_000 * prod;
    proof {
        assert(4 * 1_000_000 * (t_ms as int) * ((JUMP_DURATION_MS as int) - t_ms) == 4_000_000 * (
        (t_ms as int) * ((JUMP_DURATION_MS as int) - t_ms))) by (nonlinear_arith);
    }
    (num / 9_000_000) as i64
}

/// One executable tick of the vertical-motion state machine, exact
/// against `next_motion`. Returns the player's new height and updates
/// the jump state in place.
pub fn step_player(jump: &mut JumpState, y_mu: i64, jump_pressed: bool, dt_ms: u64) -> (y2: i64)
    requires
        old(jump).wf(),
        dt_ms <= MAX_TICK_DELTA_MS,
        0 <= y_mu <= PLAYER_Y_MAX_MU,
        !old(jump).jumping ==> y_mu <= JUMP_PEAK_MU,
    ensures
        (*final(jump), y2 as int) == next_motion(*old(jump), y_mu as int, jump_pressed, dt_ms as int),
        final(jump).wf(),
        0 <= y2 <= PLAYER_Y_MAX_MU,
        !final(jump).jumping ==> y2 <= JUMP_PEAK_MU,
{
    if jump.jumping || jump_pressed {
        let origin: i64 = if jump.jumping {
            jump.origin_y_mu
        } else {
            y_mu
        };
        let elapsed: u64 = (if jump.jumping {
            jump.elapsed_ms
        } else {
            0
        }) + dt_ms;
        if elapsed >= JUMP_DURATION_MS {
            jump.jumping = false;
            jump.elapsed_ms = 0;
            jump.origin_y_mu = 0;
            origin
        } else {
            jump.jumping = true;
            jump.elapsed_ms = elapsed;
            jump.origin_y_mu = origin;
            let off: i64 = jump_offset_mu(elapsed);
            origin + off
        }
    } else {
        let drop_mu: i64 = PLAYER_FALL_SPEED * (dt_ms as i64);
        if y_mu - drop_mu <= 0 {
            0
        } else {
            y_mu - drop_mu
        }
    }
}

} // verus!
