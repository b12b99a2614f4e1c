//! The fire-and-forget commands a tick issues to the host engine.
//!
//! The tick never performs rendering or audio itself: it returns the
//! commands for the frame, in order, and the host carries them out
//! without reporting back.

use vstd::prelude::*;

verus! {

/// A one-shot sound effect the host can play.
#[derive(Clone, Copy, PartialEq, Eq, Structural, Debug)]
pub enum SoundEffect {
    /// Played when a collision costs the player health.
    Impact,
    /// Played once when the session is lost.
    Jingle,
}

/// One command to the host engine.
#[derive(Clone, Copy, PartialEq, Eq, Structural, Debug)]
pub enum Command {
    /// Overwrite the score label with this score.
    SetScoreText(u64),
    /// Overwrite the health label with this health value.
    SetHealthText(u8),
    /// Add the terminal "Game Over" label.
    AddGameOverText,
    /// Stop the background music.
    StopMusic,
    /// Play a one-shot sound effect.
    PlaySound(SoundEffect),
}

/// The commands the loss transition issues, exactly once, in order:
/// show the terminal label, stop the music, play the terminal sound.
pub open spec fn loss_commands() -> Seq<Command> {
    seq![
        Command::AddGameOverText,
        Command::StopMusic,
        Command::PlaySound(SoundEffect::Jingle),
    ]
}

} // verus!
