//! The player: the single entity the projectiles are aimed at.

use vstd::prelude::*;
use crate::game::Phase;
use crate::geom::Vec2;

verus! {

/// The player's resting height in milli-units.
pub const PLAYER_REST_Y: i32 = -10500;

/// The one player of the match.  `ready` is the jump capability: only an
/// armed player's click applies an impulse.
#[derive(Clone, Copy, Debug, PartialEq, Eq, Structural)]
pub struct Player {
    pub id: u64,
    pub pos: Vec2,
    pub vel: Vec2,
    pub ready: bool,
}

impl Player {
    /// The player spawns at rest below the arena center, disarmed.
    pub fn spawn(id: u64) -> (p: Player)
        ensures
            p.id == id,
            p.pos == (Vec2 { x: 0, y: PLAYER_REST_Y }),
            p.vel == (Vec2 { x: 0, y: 0 }),
            !p.ready,
    {
        Player { id, pos: Vec2 { x: 0, y: PLAYER_REST_Y }, vel: Vec2 { x: 0, y: 0 }, ready: false }
    }

    /// React to the tick's phase event: the `TransDead` event puts the
    /// player back to rest -- same column, resting height, no motion.
    /// Returns whether a reset happened, so the physics body can be moved
    /// along.
    pub fn on_phase(&mut self, emitted: Phase) -> (reset: bool)
        ensures
            reset == (emitted == Phase::TransDead),
            reset ==> *final(self) == (Player {
                pos: Vec2 { x: old(self).pos.x, y: PLAYER_REST_Y },
                vel: Vec2 { x: 0, y: 0 },
                ..*old(self)
            }),
            !reset ==> *final(self) == *old(self),
    {
        if matches!(emitted, Phase::TransDead) {
            self.pos = Vec2 { x: self.pos.x, y: PLAYER_REST_Y };
            self.vel = Vec2 { x: 0, y: 0 };
            true
        } else {
            false
        }
    }
}

} // verus!
