//! Debris fragments and win detection.
//!
//! When the player is struck, a cosmetic body-part fragment is spawned at
//! the impact point.  Fragments are also the targets of the win check: on
//! the tick after the controller emits `TransMain`, a ray is cast across
//! the middle of the arena with a filter that selects debris alone, and
//! the match is won exactly when the first fragment the ray hits lies at
//! rest.

use vstd::prelude::*;
use crate::geom::Vec2;

verus! {

/// Marker for a debris body.
#[derive(Clone, Copy, Debug, PartialEq, Eq, Structural)]
pub struct BodyPart {}

/// A debris fragment the core has spawned.
#[derive(Clone, Copy, Debug, PartialEq, Eq, Structural)]
pub struct DebrisBody {
    pub id: u64,
    pub pos: Vec2,
    pub vel: Vec2,
    /// Which of the six fragment sprites to show.
    pub variant: u8,
}

/// What the win ray reported back: the first body it hit and that body's
/// speed, in milli-units per tick.
#[derive(Clone, Copy, Debug, PartialEq, Eq, Structural)]
pub struct RayHit {
    pub body_id: u64,
    pub speed_milli: u64,
}

/// A body is at rest below a tenth of a unit per tick.
pub const AT_REST_SPEED_MILLI: u64 = 100;

/// Whether some fragment carries this identifier.
pub open spec fn spec_debris_listed(debris: Seq<DebrisBody>, id: u64) -> bool {
    exists|i: int| 0 <= i < debris.len() && debris[i].id == id
}

/// The win condition, under the first-hit policy: the check is armed, the
/// ray hit a body, that body is a known debris fragment, and it lies at
/// rest.  Nothing is won when the ray passed through empty air.
pub open spec fn spec_win(armed: bool, hit: Option<RayHit>, debris: Seq<DebrisBody>) -> bool {
    armed && match hit {
        Some(h) => spec_debris_listed(debris, h.body_id)
            && h.speed_milli < AT_REST_SPEED_MILLI,
        None => false,
    }
}

impl BodyPart {
    /// Decide the win from this tick's ray result.
    ///
    /// `armed` says whether last tick's phase event asked for the cast;
    /// `hit` is what the provider's ray, cast with [`crate::layers::win_ray_groups`],
    /// reported.  First-hit policy: only the first body on the ray counts.
    pub fn win_check(armed: bool, hit: Option<RayHit>, debris: &Vec<DebrisBody>) -> (won: bool)
        ensures
            won == spec_win(armed, hit, debris@),
    {
        if !armed {
            return false;
        }
        match hit {
            None => false,
            Some(h) => {
                if h.speed_milli >= AT_REST_SPEED_MILLI {
                    false
                } else {
                    let mut k: usize = 0;
                    while k < debris.len()
                        invariant
                            armed,
                            hit == Some(h),
                            h.speed_milli < AT_REST_SPEED_MILLI,
                            k <= debris@.len(),
                            forall|j: int| 0 <= j < k ==> debris@[j].id != h.body_id,
                        decreases debris.len() - k,
                    {
                        if debris[k].id == h.body_id {
                            proof {
                                assert(spec_debris_listed(debris@, h.body_id)) by {
                                    assert(debris@[k as int].id == h.body_id);
                                }
                            }
                            return true;
                        }
                        k = k + 1;
                    }
                    false
                }
            },
        }
    }
}

} // verus!
