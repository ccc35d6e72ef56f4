//! Cross-component events.
//!
//! Events live only within the tick they are emitted in: every queue is
//! drained by its consumers and cleared at the tick boundary, so producers
//! run strictly before their consumers within one tick.

use vstd::prelude::*;
use crate::geom::Vec2;

verus! {

/// A contact notification from the physics provider, naming the two
/// colliding bodies.
#[derive(Clone, Copy, Debug, PartialEq, Eq, Structural)]
pub enum ContactEvent {
    Started(u64, u64),
    Stopped(u64, u64),
}

/// Ask for the body with this identifier to be removed.
#[derive(Clone, Copy, Debug, PartialEq, Eq, Structural)]
pub struct DespawnEntity(pub u64);

/// The player was struck by a projectile.
#[derive(Clone, Copy, Debug, PartialEq, Eq, Structural)]
pub struct PlayerDamaged {
    /// Where the player stood when struck.
    pub pos: Vec2,
    /// The striking projectile's velocity.
    pub vel: Vec2,
    /// The projectile's health after the hit was applied.
    pub slime_ball_health: i32,
    /// The angle between the player's velocity and the projectile's, in
    /// thousandths of a half-turn; reported by the physics provider with
    /// the velocities themselves.
    pub angle_milli: u32,
}

/// Arm or disarm the cursor and the player's jump capability.
#[derive(Clone, Copy, Debug, PartialEq, Eq, Structural)]
pub struct TargetStatus(pub bool);

impl TargetStatus {
    /// Only the most recent status within a tick is honoured.
    pub fn changed(evs: &Vec<TargetStatus>) -> (r: Option<bool>)
        ensures
            r == spec_latest_status(evs@),
    {
        if evs.len() == 0 {
            None
        } else {
            Some(evs[evs.len() - 1].0)
        }
    }
}

/// The last status of the tick, if any was emitted: last write wins.
pub open spec fn spec_latest_status(evs: Seq<TargetStatus>) -> Option<bool> {
    if evs.len() == 0 {
        None
    } else {
        Some(evs[evs.len() - 1].0)
    }
}

} // verus!
