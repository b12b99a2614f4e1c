//! The visual objects the tick mutates, and the facts the host engine
//! hands the tick each frame.

use vstd::prelude::*;

use crate::params::ENV_X_MAX_MU;
use crate::params::ENV_X_MIN_MU;
use crate::params::MAX_TICK_DELTA_MS;
use crate::params::PLAYER_Y_MAX_MU;

verus! {

/// What a visual object is, carried explicitly on each object rather
/// than encoded in its display name.
#[derive(Clone, Copy, PartialEq, Eq, Structural, Debug)]
pub enum SpriteKind {
    /// The player-controlled sprite.
    Player,
    /// A decorative scrolling road marking, recycled deterministically.
    Roadline,
    /// The obstacle, recycled at a random position.
    Obstacle,
}

/// One scrolling environment sprite: a roadline or the obstacle.
#[derive(Clone, Copy, PartialEq, Eq, Structural, Debug)]
pub struct EnvSprite {
    /// What the sprite is; never `Player` in a well-formed world.
    pub kind: SpriteKind,
    /// Horizontal position in milli-units.
    pub x_mu: i64,
}

/// The mutable visual state the tick drives: the player's height and
/// the environment sprites' horizontal positions. The player's
/// horizontal position is fixed and not modeled.
pub struct World {
    /// The player's vertical position in milli-units; ground level is 0.
    pub player_y_mu: i64,
    /// The scrolling environment sprites.
    pub env: Vec<EnvSprite>,
}

impl World {
    /// Every environment sprite is a roadline or the obstacle and sits
    /// inside the window the scroll-and-wrap rules keep positions in;
    /// the player sits between the ground and the highest point a jump
    /// can reach.
    pub open spec fn wf(self) -> bool {
        &&& forall|i: int|
            0 <= i < self.env@.len() ==> {
                &&& (#[trigger] self.env@[i]).kind != SpriteKind::Player
                &&& ENV_X_MIN_MU <= self.env@[i].x_mu <= ENV_X_MAX_MU
            }
        &&& 0 <= self.player_y_mu <= PLAYER_Y_MAX_MU
    }

    /// The world a run begins with: the player grounded, ten roadlines
    /// spread 150 pixels apart starting at -600, and the obstacle at
    /// -500.
    pub fn initial() -> (w: World)
        ensures
            w.wf(),
            w.player_y_mu == 0,
            w.env@.len() == 11,
            forall|i: int|
                0 <= i < 10 ==> {
                    &&& (#[trigger] w.env@[i]).kind == SpriteKind::Roadline
                    &&& w.env@[i].x_mu == -600_000 + 150_000 * i
                },
            w.env@[10].kind == SpriteKind::Obstacle,
            w.env@[10].x_mu == -500_000,
    {
        let mut env: Vec<EnvSprite> = Vec::new();
        let mut i: usize = 0;
        while i < 10
            invariant
                i <= 10,
                env@.len() == i,
                forall|j: int|
                    0 <= j < i ==> {
                        &&& (#[trigger] env@[j]).kind == SpriteKind::Roadline
                        &&& env@[j].x_mu == -600_000 + 150_000 * j
                    },
            decreases 10 - i,
        {
            env.push(EnvSprite { kind: SpriteKind::Roadline, x_mu: -600_000 + 150_000 * (i as i64) });
            i = i + 1;
        }
        env.push(EnvSprite { kind: SpriteKind::Obstacle, x_mu: -500_000 });
        World { player_y_mu: 0, env }
    }
}

/// One collision event from the host's collision subsystem: an
/// unordered pair of participants and whether the contact began or
/// ended with this event.
#[derive(Clone, Copy, PartialEq, Eq, Structural, Debug)]
pub struct CollisionEvent {
    /// One participant of the contact pair.
    pub first: SpriteKind,
    /// The other participant of the contact pair.
    pub second: SpriteKind,
    /// True when the contact began, false when it ended.
    pub begin: bool,
}

impl CollisionEvent {
    /// Whether the player is one of the two participants.
    pub open spec fn involves_player(self) -> bool {
        self.first == SpriteKind::Player || self.second == SpriteKind::Player
    }

    /// Whether the event costs health: only a beginning contact that
    /// involves the player does.
    pub open spec fn damaging(self) -> bool {
        self.begin && self.involves_player()
    }
}

/// Everything the host engine hands the tick for one frame.
pub struct TickInput {
    /// The coarse clock: whole seconds since the program started.
    pub now_seconds: u64,
    /// Time this frame took, in milliseconds.
    pub delta_ms: u64,
    /// Whether the activation key is currently pressed.
    pub activation_pressed: bool,
    /// Whether the jump key is currently pressed.
    pub jump_pressed: bool,
    /// The collision events accumulated since the previous tick, in
    /// arrival order. The tick drains them all.
    pub collisions: Vec<CollisionEvent>,
}

impl TickInput {
    /// The frame delta stays below the bound the scroll arithmetic is
    /// sized for.
    pub open spec fn wf(self) -> bool {
        self.delta_ms <= MAX_TICK_DELTA_MS
    }
}

} // verus!
