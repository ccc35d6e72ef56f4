//! The player's jump: a click of an armed player kicks the body toward
//! the cursor.

use vstd::prelude::*;
use crate::events::TargetStatus;
use crate::geom::{spec_minus, spec_scaled, Vec2};

verus! {

/// The jump capability: attached to the player while the cursor is
/// armed.
#[derive(Clone, Copy, Debug, PartialEq, Eq, Structural)]
pub struct ReadyToJump;

impl ReadyToJump {
    /// React to a click at `click` (in milli-units): an armed player
    /// takes an impulse of three hundred times the offset from body to
    /// cursor, and every click disarms the cursor.
    pub fn update(click: Vec2, player_pos: Vec2, ready: bool)
        -> (r: (Option<Vec2>, TargetStatus))
        ensures
            r.0 == (if ready {
                Some(spec_scaled(spec_minus(click, player_pos), 300))
            } else {
                None::<Vec2>
            }),
            r.1 == TargetStatus(false),
    {
        let impulse = if ready {
            Some(click.minus(player_pos).scaled(300))
        } else {
            None
        };
        (impulse, TargetStatus(false))
    }
}

} // verus!
