//! Scrolling and recycling of the environment sprites.
//!
//! Every tick each environment sprite moves left at the road speed.
//! A roadline that leaves the screen on the left wraps right by a
//! fixed distance, a deterministic repeating pattern; the obstacle
//! instead reappears at a horizontal position drawn uniformly at
//! random from a fixed range.

use vstd::prelude::*;

use crate::params::ENV_X_MAX_MU;
use crate::params::ENV_X_MIN_MU;
use crate::params::MAX_TICK_DELTA_MS;
use crate::params::OBSTACLE_EXIT_X_MU;
use crate::params::RESPAWN_MAX_MU;
use crate::params::RESPAWN_MIN_MU;
use crate::params::ROADLINE_EXIT_X_MU;
use crate::params::ROADLINE_WRAP_MU;
use crate::params::ROAD_SPEED;
use crate::world::EnvSprite;
use crate::world::SpriteKind;

verus! {

/// Where a roadline at `x` ends up after scrolling for `dt_ms`
/// milliseconds: left at the road speed, then wrapped right by the
/// fixed wrap distance if it crossed the exit threshold.
pub open spec fn next_roadline_x(x: int, dt_ms: int) -> int {
    let x1 = x - (ROAD_SPEED as int) * dt_ms;
    if x1 < ROADLINE_EXIT_X_MU {
        x1 + ROADLINE_WRAP_MU
    } else {
        x1
    }
}

/// Whether the obstacle at `x` crosses its exit threshold when it
/// scrolls for `dt_ms` milliseconds.
pub open spec fn obstacle_exits(x: int, dt_ms: int) -> bool {
    x - (ROAD_SPEED as int) * dt_ms < OBSTACLE_EXIT_X_MU
}

/// How one environment sprite `before` may step to `after` in a tick
/// with frame delta `dt_ms`: the kind is kept; a roadline moves
/// deterministically; an obstacle that exits reappears somewhere in
/// the respawn range, and otherwise just scrolls.
pub open spec fn env_step_ok(before: EnvSprite, after: EnvSprite, dt_ms: int) -> bool {
    &&& after.kind == before.kind
    &&& before.kind == SpriteKind::Roadline ==> after.x_mu == next_roadline_x(
        before.x_mu as int,
        dt_ms,
    )
    &&& before.kind == SpriteKind::Obstacle ==> if obstacle_exits(before.x_mu as int, dt_ms) {
        RESPAWN_MIN_MU <= after.x_mu < RESPAWN_MAX_MU
    } else {
        after.x_mu == before.x_mu - (ROAD_SPEED as int) * dt_ms
    }
}

/// Relies on `rand::Rng::gen_range` over the thread-local generator:
/// a draw from the non-empty half-open integer range
/// `RESPAWN_MIN_MU..RESPAWN_MAX_MU` lies within that range.
#[verifier::external_body]
fn random_respawn_x() -> (r: i64)
    ensures
        RESPAWN_MIN_MU <= r < RESPAWN_MAX_MU,
{
    rand::Rng::gen_range(&mut rand::thread_rng(), RESPAWN_MIN_MU..RESPAWN_MAX_MU)
}

/// Scroll every environment sprite one tick, recycling those that
/// left the screen. Each sprite steps as `env_step_ok` says, and the
/// position window is preserved.
pub fn scroll_env(env: &mut Vec<EnvSprite>, dt_ms: u64)
    requires
        dt_ms <= MAX_TICK_DELTA_MS,
        forall|i: int|
            0 <= i < old(env)@.len() ==> {
                &&& (#[trigger] old(env)@[i]).kind != SpriteKind::Player
                &&& ENV_X_MIN_MU <= old(env)@[i].x_mu <= ENV_X_MAX_MU
            },
    ensures
        final(env)@.len() == old(env)@.len(),
        forall|i: int|
            0 <= i < old(env)@.len() ==> env_step_ok(
                old(env)@[i],
                #[trigger] final(env)@[i],
                dt_ms as int,
            ),
        forall|i: int|
            0 <= i < final(env)@.len() ==> {
                &&& (#[trigger] final(env)@[i]).kind != SpriteKind::Player
                &&& ENV_X_MIN_MU <= final(env)@[i].x_mu <= ENV_X_MAX_MU
            },
{
    let n: usize = env.len();
    let drop_mu: i64 = ROAD_SPEED * (dt_ms as i64);
    let mut i: usize = 0;
    while i < n
        invariant
            n == env@.len() == old(env)@.len(),
            i <= n,
            dt_ms <= MAX_TICK_DELTA_MS,
            drop_mu == (ROAD_SPEED as int) * (dt_ms as int),
            0 <= drop_mu <= 1_500_000,
            forall|j: int|
                0 <= j < n ==> {
                    &&& (#[trigger] old(env)@[j]).kind != SpriteKind::Player
                    &&& ENV_X_MIN_MU <= old(env)@[j].x_mu <= ENV_X_MAX_MU
                },
            forall|j: int|
                i <= j < n ==> #[trigger] env@[j] == old(env)@[j],
            forall|j: int|
                0 <= j < i ==> env_step_ok(old(env)@[j], #[trigger] env@[j], dt_ms as int),
            forall|j: int|
                0 <= j < i ==> {
                    &&& (#[trigger] env@[j]).kind != SpriteKind::Player
                    &&& ENV_X_MIN_MU <= env@[j].x_mu <= ENV_X_MAX_MU
                },
        decreases n - i,
    {
        let sp: EnvSprite = env[i];
        let x1: i64 = sp.x_mu - drop_mu;
        let new_x: i64 = match sp.kind {
            SpriteKind::Roadline => {
                if x1 < ROADLINE_EXIT_X_MU {
                    x1 + ROADLINE_WRAP_MU
                } else {
                    x1
                }
            },
            SpriteKind::Obstacle => {
                if x1 < OBSTACLE_EXIT_X_MU {
                    random_respawn_x()
                } else {
                    x1
                }
            },
            SpriteKind::Player => sp.x_mu,
        };
        env[i] = EnvSprite { kind: sp.kind, x_mu: new_x };
        i = i + 1;
    }
}

} // verus!
