//! The collision-to-damage pipeline.
//!
//! Each tick drains the full queue of collision events accumulated
//! since the last tick. An event costs health only when it marks the
//! beginning of a contact that involves the player; each such event
//! independently takes one health point, with no debounce, as long as
//! health is left. Every point lost overwrites the health label and
//! plays the impact sound.

use vstd::prelude::*;

use crate::commands::Command;
use crate::commands::SoundEffect;
use crate::session::GameState;
use crate::world::CollisionEvent;
use crate::world::SpriteKind;

verus! {

/// Health left after processing the events from index `i` on, starting
/// from `h`: each damaging event takes one point while any is left.
pub open spec fn health_from(h: int, evs: Seq<CollisionEvent>, i: int) -> int
    decreases evs.len() - i,
{
    if i < 0 || i >= evs.len() {
        h
    } else if evs[i].damaging() && h > 0 {
        health_from(h - 1, evs, i + 1)
    } else {
        health_from(h, evs, i + 1)
    }
}

/// Health left after draining all of `evs`, starting from `h`.
pub open spec fn health_after(h: int, evs: Seq<CollisionEvent>) -> int {
    health_from(h, evs, 0)
}

/// The commands the events from index `i` on produce, starting from
/// health `h`: for each point lost, the new health value on the label
/// and the impact sound, in event order.
pub open spec fn damage_cmds_from(h: int, evs: Seq<CollisionEvent>, i: int) -> Seq<Command>
    decreases evs.len() - i,
{
    if i < 0 || i >= evs.len() {
        Seq::empty()
    } else if evs[i].damaging() && h > 0 {
        seq![
            Command::SetHealthText((h - 1) as u8),
            Command::PlaySound(SoundEffect::Impact),
        ] + damage_cmds_from(h - 1, evs, i + 1)
    } else {
        damage_cmds_from(h, evs, i + 1)
    }
}

/// The commands draining all of `evs` produces, starting from `h`.
pub open spec fn damage_commands(h: int, evs: Seq<CollisionEvent>) -> Seq<Command> {
    damage_cmds_from(h, evs, 0)
}

/// Collision processing never raises health and never drives it below
/// zero.
pub proof fn lemma_health_from_bounds(h: int, evs: Seq<CollisionEvent>, i: int)
    requires
        0 <= h,
    ensures
        0 <= health_from(h, evs, i) <= h,
    decreases evs.len() - i,
{
    if 0 <= i < evs.len() {
        if evs[i].damaging() && h > 0 {
            lemma_health_from_bounds(h - 1, evs, i + 1);
        } else {
            lemma_health_from_bounds(h, evs, i + 1);
        }
    }
}

/// Drain the tick's collision events, decrementing health once per
/// damaging event while health is left. Returns the display and audio
/// commands the damage produced, in order; touches nothing in the
/// session but the health.
pub fn apply_collisions(state: &mut GameState, events: &Vec<CollisionEvent>) -> (cmds: Vec<Command>)
    requires
        old(state).wf(),
    ensures
        final(state).health_amount as int == health_after(
            old(state).health_amount as int,
            events@,
        ),
        final(state).health_amount <= old(state).health_amount,
        cmds@ == damage_commands(old(state).health_amount as int, events@),
        final(state).lost == old(state).lost,
        final(state).started == old(state).started,
        final(state).score == old(state).score,
        final(state).activation_seconds == old(state).activation_seconds,
        final(state).jump == old(state).jump,
        final(state).wf(),
{
    let ghost h0: int = state.health_amount as int;
    let ghost evs: Seq<CollisionEvent> = events@;
    let mut cmds: Vec<Command> = Vec::new();
    let n: usize = events.len();
    let mut i: usize = 0;
    while i < n
        invariant
            n == evs.len(),
            evs == events@,
            i <= n,
            state.health_amount <= old(state).health_amount,
            old(state).wf(),
            state.lost == old(state).lost,
            state.started == old(state).started,
            state.score == old(state).score,
            state.activation_seconds == old(state).activation_seconds,
            state.jump == old(state).jump,
            health_from(h0, evs, 0) == health_from(state.health_amount as int, evs, i as int),
            damage_cmds_from(h0, evs, 0) == cmds@ + damage_cmds_from(
                state.health_amount as int,
                evs,
                i as int,
            ),
        decreases n - i,
    {
        let ev: CollisionEvent = events[i];
        let qualifying: bool = ev.begin && (ev.first == SpriteKind::Player || ev.second
            == SpriteKind::Player);
        let ghost h_before: int = state.health_amount as int;
        let ghost cmds_before: Seq<Command> = cmds@;
        if qualifying && state.health_amount > 0 {
            state.health_amount = state.health_amount - 1;
            cmds.push(Command::SetHealthText(state.health_amount));
            cmds.push(Command::PlaySound(SoundEffect::Impact));
            proof {
                assert(cmds@ =~= cmds_before + seq![
                    Command::SetHealthText((h_before - 1) as u8),
                    Command::PlaySound(SoundEffect::Impact),
                ]);
                assert(cmds_before + (seq![
                    Command::SetHealthText((h_before - 1) as u8),
                    Command::PlaySound(SoundEffect::Impact),
                ] + damage_cmds_from(h_before - 1, evs, i + 1)) =~= (cmds_before + seq![
                    Command::SetHealthText((h_before - 1) as u8),
                    Command::PlaySound(SoundEffect::Impact),
                ]) + damage_cmds_from(h_before - 1, evs, i + 1));
            }
        }
        i = i + 1;
    }
    proof {
        assert(cmds@ + damage_cmds_from(state.health_amount as int, evs, n as int) =~= cmds@);
    }
    cmds
}

} // verus!
