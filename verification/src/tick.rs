//! The tick controller: the single entry point the host engine calls
//! once per frame.
//!
//! A tick first checks the activation key: the first press starts the
//! session and captures the score baseline. A session that has not
//! started, or has been lost, is frozen: the tick changes nothing else
//! and issues no commands. Otherwise the tick accumulates score,
//! advances the player's vertical motion, scrolls and recycles the
//! environment sprites, drains the collision events into damage, and
//! finally, if no health is left, makes the terminal loss transition —
//! once, since a lost session freezes every later tick.

use vstd::prelude::*;

use crate::collision::apply_collisions;
use crate::collision::damage_commands;
use crate::collision::health_after;
use crate::commands::Command;
use crate::commands::SoundEffect;
use crate::commands::loss_commands;
use crate::motion::next_motion;
use crate::motion::step_player;
use crate::params::JUMP_PEAK_MU;
use crate::scroll::env_step_ok;
use crate::scroll::scroll_env;
use crate::session::GameState;
use crate::session::JumpState;
use crate::world::CollisionEvent;
use crate::world::TickInput;
use crate::world::World;

verus! {

/// Whether this tick's activation check turns the session on: the
/// activation key is seen pressed for the first time.
pub open spec fn activates(s: GameState, i: TickInput) -> bool {
    !s.started && i.activation_pressed
}

/// The `started` flag after the activation check.
pub open spec fn started_after(s: GameState, i: TickInput) -> bool {
    s.started || i.activation_pressed
}

/// The score baseline after the activation check: captured from the
/// coarse clock at the moment the session starts, untouched otherwise.
pub open spec fn activation_after(s: GameState, i: TickInput) -> int {
    if activates(s, i) {
        i.now_seconds as int
    } else {
        s.activation_seconds as int
    }
}

/// Whether gameplay advances this tick: the session is on after the
/// activation check and has not been lost.
pub open spec fn runs(s: GameState, i: TickInput) -> bool {
    started_after(s, i) && !s.lost
}

/// Whole seconds elapsed since activation, the amount the score grows
/// by this tick. The coarse clock never runs backwards; if it somehow
/// reads earlier than the baseline the elapsed time clamps at zero.
pub open spec fn score_elapsed(now: int, activation: int) -> int {
    if now >= activation {
        now - activation
    } else {
        0
    }
}

/// The score after one running tick: the full elapsed time since
/// activation is re-added every tick — so the score grows with tick
/// count times elapsed time — saturating at the counter's limit.
pub open spec fn next_score(score: int, elapsed: int) -> int {
    if score + elapsed > u64::MAX {
        u64::MAX as int
    } else {
        score + elapsed
    }
}

/// The lifecycle facts every tick guarantees, whatever its input:
/// `started` and `lost` move one way only, health never grows, and
/// the score never shrinks.
pub open spec fn lifecycle_step_ok(pre: GameState, post: GameState) -> bool {
    &&& pre.started ==> post.started
    &&& pre.lost ==> post.lost
    &&& post.health_amount <= pre.health_amount
    &&& post.score >= pre.score
}

/// The lifecycle laws over the lifetime of a session: along any chain
/// of states in which each step keeps `lifecycle_step_ok` — as every
/// tick does — `started` and `lost`, once true, stay true at every
/// later state, health never rises, and the score never falls.
pub proof fn lemma_lifecycle_monotone(states: Seq<GameState>, k1: int, k2: int)
    requires
        forall|k: int|
            0 <= k < states.len() - 1 ==> lifecycle_step_ok(states[k], #[trigger] states[k + 1]),
        0 <= k1 <= k2 < states.len(),
    ensures
        states[k1].started ==> states[k2].started,
        states[k1].lost ==> states[k2].lost,
        states[k2].health_amount <= states[k1].health_amount,
        states[k2].score >= states[k1].score,
    decreases k2 - k1,
{
    if k1 < k2 {
        lemma_lifecycle_monotone(states, k1, k2 - 1);
        assert(lifecycle_step_ok(states[k2 - 1], states[k2 - 1 + 1]));
    }
}

/// Every command a running tick issues, in order: the score label
/// first, then the health labels and impact sounds of the damage the
/// tick's collision events caused, and the terminal commands when the
/// damage exhausted the last health.
pub open spec fn running_commands(h0: int, score_after: u64, evs: Seq<CollisionEvent>) -> Seq<
    Command,
> {
    seq![Command::SetScoreText(score_after)] + damage_commands(h0, evs) + if health_after(h0, evs)
        == 0 {
        loss_commands()
    } else {
        Seq::<Command>::empty()
    }
}

/// One tick of game logic. Reads the frame's inputs, advances the
/// session and the world, and returns the commands for the host to
/// carry out, in order.
///
/// The contract covers every case:
/// - the lifecycle flags move one way only: `started` and `lost` are
///   never unset, and health never grows;
/// - a tick that does not run (not yet started, or lost) changes
///   nothing and issues nothing, except that the first activation
///   press flips `started` and captures the baseline;
/// - a running tick accumulates the score, moves the player exactly as
///   the vertical-motion machine says, steps every environment sprite
///   by the scroll-and-recycle rules, applies one point of damage per
///   damaging collision event, sets `lost` exactly when health runs
///   out, and issues exactly the commands of `running_commands`.
pub fn tick(state: &mut GameState, world: &mut World, input: &TickInput) -> (cmds: Vec<Command>)
    requires
        old(state).wf(),
        old(world).wf(),
        !old(state).jump.jumping ==> old(world).player_y_mu <= JUMP_PEAK_MU,
        input.wf(),
    ensures
        final(state).wf(),
        final(world).wf(),
        !final(state).jump.jumping ==> final(world).player_y_mu <= JUMP_PEAK_MU,
        final(state).started == started_after(*old(state), *input),
        final(state).activation_seconds as int == activation_after(*old(state), *input),
        lifecycle_step_ok(*old(state), *final(state)),
        !runs(*old(state), *input) ==> {
            &&& final(state).health_amount == old(state).health_amount
            &&& final(state).score == old(state).score
            &&& final(state).lost == old(state).lost
            &&& final(state).jump == old(state).jump
            &&& *final(world) == *old(world)
            &&& cmds@ == Seq::<Command>::empty()
        },
        runs(*old(state), *input) ==> {
            &&& final(state).score as int == next_score(
                old(state).score as int,
                score_elapsed(input.now_seconds as int, activation_after(*old(state), *input)),
            )
            &&& final(state).health_amount as int == health_after(
                old(state).health_amount as int,
                input.collisions@,
            )
            &&& final(state).lost == (health_after(
                old(state).health_amount as int,
                input.collisions@,
            ) == 0)
            &&& (final(state).jump, final(world).player_y_mu as int) == next_motion(
                old(state).jump,
                old(world).player_y_mu as int,
                input.jump_pressed,
                input.delta_ms as int,
            )
            &&& final(world).env@.len() == old(world).env@.len()
            &&& forall|i: int|
                0 <= i < old(world).env@.len() ==> env_step_ok(
                    old(world).env@[i],
                    #[trigger] final(world).env@[i],
                    input.delta_ms as int,
                )
            &&& cmds@ == running_commands(
                old(state).health_amount as int,
                final(state).score,
                input.collisions@,
            )
        },
{
    // Lifecycle: the first activation press starts the session and
    // captures the score baseline.
    if !state.started && input.activation_pressed {
        state.started = true;
        state.activation_seconds = input.now_seconds;
    }
    // A session that has not started, or is over, is frozen.
    if !state.started || state.lost {
        return Vec::new();
    }
    // Score: re-add the whole elapsed time since activation.
    let elapsed: u64 = if input.now_seconds >= state.activation_seconds {
        input.now_seconds - state.activation_seconds
    } else {
        0
    };
    state.score = if state.score <= u64::MAX - elapsed {
        state.score + elapsed
    } else {
        u64::MAX
    };
    let mut cmds: Vec<Command> = Vec::new();
    cmds.push(Command::SetScoreText(state.score));
    // Player vertical motion: jump arc or grounded fall.
    let mut jump: JumpState = state.jump;
    let y2: i64 = step_player(&mut jump, world.player_y_mu, input.jump_pressed, input.delta_ms);
    state.jump = jump;
    world.player_y_mu = y2;
    // Environment: scroll left, recycle what left the screen.
    scroll_env(&mut world.env, input.delta_ms);
    // Damage: one health point per damaging collision event.
    let ghost h0: int = state.health_amount as int;
    let mut dmg: Vec<Command> = apply_collisions(state, &input.collisions);
    cmds.append(&mut dmg);
    // Loss: out of health ends the session, once.
    if state.health_amount == 0 {
        state.lost = true;
        cmds.push(Command::AddGameOverText);
        cmds.push(Command::StopMusic);
        cmds.push(Command::PlaySound(SoundEffect::Jingle));
    }
    proof {
        assert(cmds@ =~= running_commands(h0, state.score, input.collisions@));
    }
    cmds
}

} // verus!
