//! The monster: the enemy that lobs slime balls.
//!
//! The monster runs its own little state machine over its animations.  The
//! match controller pushes it into `TransShoot`; each time the renderer
//! reports the current animation finished, the monster advances, and the
//! end of a shoot animation fires one projectile with default position and
//! velocity.

use vstd::prelude::*;
use crate::slime_ball::{SpawnSlimeBall, INITIAL_HEALTH};

verus! {

/// The monster's animation state.
#[derive(Clone, Copy, Debug, PartialEq, Eq, Structural)]
pub enum Phase {
    TransIdle,
    Idle,
    TransShoot,
    Shoot,
}

/// Which looped animation the renderer should play.
#[derive(Clone, Copy, Debug, PartialEq, Eq, Structural)]
pub enum MonsterAnim {
    Idle,
    Shoot,
}

/// The monster's phase after an animation finished.
pub open spec fn spec_anim_next(p: Phase) -> Phase {
    match p {
        Phase::TransIdle => Phase::Idle,
        Phase::TransShoot => Phase::Shoot,
        Phase::Shoot => Phase::TransIdle,
        Phase::Idle => Phase::Idle,
    }
}

/// The animation applied when one finished, if any.
pub open spec fn spec_anim_applied(p: Phase) -> Option<MonsterAnim> {
    match p {
        Phase::TransIdle => Some(MonsterAnim::Idle),
        Phase::TransShoot => Some(MonsterAnim::Shoot),
        Phase::Shoot => Some(MonsterAnim::Idle),
        Phase::Idle => None,
    }
}

/// The monster.
#[derive(Clone, Copy, Debug, PartialEq, Eq, Structural)]
pub struct Monster {
    pub phase: Phase,
}

/// One whole reaction to a finished animation: the monster afterwards, the
/// animation applied, and the projectile fired.
pub open spec fn spec_monster_step(m: Monster, finished: bool)
    -> (Monster, Option<MonsterAnim>, Option<SpawnSlimeBall>) {
    if !finished {
        (m, None, None)
    } else {
        (
            Monster { phase: spec_anim_next(m.phase) },
            spec_anim_applied(m.phase),
            if m.phase == Phase::Shoot {
                Some(SpawnSlimeBall { position: None, velocity: None, health: INITIAL_HEALTH })
            } else {
                None
            },
        )
    }
}

impl Monster {
    /// A monster starts idle.
    pub fn spawn() -> (m: Monster)
        ensures
            m.phase == Phase::Idle,
    {
        Monster { phase: Phase::Idle }
    }

    /// The match controller tells the monster to begin shooting.
    pub fn begin_shoot(&mut self)
        ensures
            final(self).phase == Phase::TransShoot,
    {
        self.phase = Phase::TransShoot;
    }

    /// React to the renderer reporting the current animation finished:
    /// advance the state machine, hand back the animation to apply, and
    /// fire one default projectile exactly when a shoot animation ended.
    pub fn animation_finished(&mut self, finished: bool)
        -> (r: (Option<MonsterAnim>, Option<SpawnSlimeBall>))
        ensures
            (*final(self), r.0, r.1) == spec_monster_step(*old(self), finished),
            !finished ==> *final(self) == *old(self) && r.0 is None && r.1 is None,
            finished ==> final(self).phase == spec_anim_next(old(self).phase)
                && r.0 == spec_anim_applied(old(self).phase)
                && r.1 == (if old(self).phase == Phase::Shoot {
                    Some(SpawnSlimeBall { position: None, velocity: None,
                        health: INITIAL_HEALTH })
                } else {
                    None::<SpawnSlimeBall>
                }),
    {
        if !finished {
            return (None, None);
        }
        match self.phase {
            Phase::TransIdle => {
                self.phase = Phase::Idle;
                (Some(MonsterAnim::Idle), None)
            },
            Phase::TransShoot => {
                self.phase = Phase::Shoot;
                (Some(MonsterAnim::Shoot), None)
            },
            Phase::Shoot => {
                self.phase = Phase::TransIdle;
                (Some(MonsterAnim::Idle), Some(SpawnSlimeBall {
                    position: None,
                    velocity: None,
                    health: INITIAL_HEALTH,
                }))
            },
            Phase::Idle => (None, None),
        }
    }
}

} // verus!
