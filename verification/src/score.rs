//! The score: a monotone counter of how often the player was struck.

use vstd::prelude::*;
use crate::events::PlayerDamaged;
use crate::game::Phase;

verus! {

/// The score after `n` more hits, held at the top of the `u32` range.
pub open spec fn spec_bumped_score(s: int, n: int) -> int {
    if s + n > u32::MAX as int {
        u32::MAX as int
    } else {
        s + n
    }
}

/// The running score of the match.
#[derive(Clone, Copy, Debug, PartialEq, Eq, Structural)]
pub struct Score(pub u32);

impl Score {
    /// A fresh display starts at zero.
    pub fn spawn() -> (s: Score)
        ensures
            s.0 == 0,
    {
        Score(0)
    }

    /// Count this tick's damage events: the score grows by exactly one
    /// per event drained, no more and no less.
    pub fn on_player_damaged(&mut self, evs: &Vec<PlayerDamaged>)
        ensures
            final(self).0 as int == spec_bumped_score(old(self).0 as int, evs@.len() as int),
            old(self).0 <= final(self).0,
    {
        let n: usize = evs.len();
        if (n as u64) > (u32::MAX - self.0) as u64 {
            self.0 = u32::MAX;
        } else {
            self.0 = self.0 + n as u32;
        }
    }

    /// What the end screen shows: the final count, released only by the
    /// `TransEnd` phase event.
    pub fn on_end(&self, emitted: Phase) -> (r: Option<u32>)
        ensures
            r == (if emitted == Phase::TransEnd { Some(self.0) } else { None::<u32> }),
    {
        if matches!(emitted, Phase::TransEnd) {
            Some(self.0)
        } else {
            None
        }
    }
}

} // verus!
