//! Core logic of a small side-scrolling arcade game.
//!
//! A player sprite jumps over an obstacle while decorative road lines
//! scroll past. The library holds the per-frame game logic: the session
//! lifecycle (not started, running, lost), the player's vertical motion
//! (grounded fall or a parabolic jump arc), the scrolling and recycling
//! of environment sprites, the collision-to-damage pipeline, and the
//! score bookkeeping. A host engine supplies inputs (key state, time,
//! collision events) and carries out the commands the tick emits
//! (set a text label, play or stop audio).
//!
//! Positions are fixed-point: thousandths of a pixel ("milli-units"),
//! so a speed in pixels per second is numerically a speed in
//! milli-units per millisecond. Times are in milliseconds, except the
//! coarse clock used for the score, which is in whole seconds.

pub mod collision;
pub mod commands;
pub mod motion;
pub mod params;
pub mod scroll;
pub mod session;
pub mod text;
pub mod tick;
pub mod world;
