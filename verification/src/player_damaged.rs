//! The player-damage handler and the splitting rule.
//!
//! Each `PlayerDamaged` event disarms the cursor, spawns one debris
//! fragment at the impact point, and may retaliate: when the deflection
//! was energetic enough, the struck ball splits into two children thrown
//! back along the negated hit velocity.
//!
//! The split power is `(A / pi) * |player velocity| / 10`, where `A` is the
//! angle between the player's velocity and the hit velocity, and the ball
//! splits when `split power * health at impact > 10`.  With the angle
//! carried in thousandths of a half-turn and speeds in milli-units, the
//! rule clears its denominators exactly: the product
//! `angle_milli * speed_milli * health` decides against `10^8`, and a
//! child's health is that product over `10^7`, truncated.

use vstd::prelude::*;
use crate::body_part::DebrisBody;
use crate::events::{PlayerDamaged, TargetStatus};
use crate::geom::{sat32, spec_magnitude, spec_minus, spec_negated, spec_scaled,
    spec_unit_milli, Vec2};
use crate::slime_ball::SpawnSlimeBall;

verus! {

/// `angle_milli * speed_milli * health`: the split rule's product with all
/// denominators cleared.
pub open spec fn spec_split_product(angle_milli: int, speed_milli: int, health: int) -> int {
    angle_milli * speed_milli * health
}

/// Two children spawn exactly when the product clears the threshold:
/// `(angle_milli/1000) * (speed_milli/1000) / 10 * health > 10`.
pub open spec fn spec_splits(angle_milli: int, speed_milli: int, health: int) -> bool {
    spec_split_product(angle_milli, speed_milli, health) > 100_000_000
}

/// A child's health: the split power times the impact health, truncated to
/// an integer and saturated into the `i32` range.
pub open spec fn spec_child_health(angle_milli: int, speed_milli: int, health: int) -> int {
    sat32(spec_split_product(angle_milli, speed_milli, health) / 10_000_000)
}

/// Decide a split: `Some` carries the children's health exactly when the
/// rule fires.
pub fn split_decision(angle_milli: u32, speed_milli: u64, health: i32) -> (r: Option<i32>)
    requires
        speed_milli < 0x1_0000_0000u64,
    ensures
        ({
            match r {
                None => !spec_splits(angle_milli as int, speed_milli as int, health as int),
                Some(h) => spec_splits(angle_milli as int, speed_milli as int, health as int)
                    && h as int == spec_child_health(angle_milli as int, speed_milli as int,
                        health as int),
            }
        }),
{
    proof {
        assert(0 <= (angle_milli as int) * (speed_milli as int) < 0x1_0000_0000_0000_0000int)
            by (nonlinear_arith)
            requires
                0 <= angle_milli as int,
                (angle_milli as int) < 0x1_0000_0000int,
                0 <= speed_milli as int,
                (speed_milli as int) < 0x1_0000_0000int;
        assert({
            let am = (angle_milli as int) * (speed_milli as int);
            -0x8000_0000_0000_0000_0000_0000_0000_0000int < am * (health as int)
                < 0x8000_0000_0000_0000_0000_0000_0000_0000int
        }) by (nonlinear_arith)
            requires
                0 <= (angle_milli as int) * (speed_milli as int),
                (angle_milli as int) * (speed_milli as int) < 0x1_0000_0000_0000_0000int,
                i32::MIN as int <= health as int,
                health as int <= i32::MAX as int;
    }
    let am: i128 = (angle_milli as i128) * (speed_milli as i128);
    let prod: i128 = am * (health as i128);
    if prod > 100_000_000i128 {
        let ch: i128 = prod / 10_000_000i128;
        proof {
            assert(prod as int / 10_000_000 >= 10) by (nonlinear_arith)
                requires prod as int > 100_000_000;
        }
        if ch > i32::MAX as i128 {
            Some(i32::MAX)
        } else {
            Some(ch as i32)
        }
    } else {
        None
    }
}

/// The deterministic six-way choice of a fragment sprite, hashed from the
/// impact position: `x * 1008 - y * 2502`, brought back to unit scale and
/// taken modulo six, with everything non-positive mapped to the first
/// sprite.
pub open spec fn spec_debris_variant(pos: Vec2) -> int {
    let r = (pos.x as int) * 1008 - (pos.y as int) * 2502;
    if r <= 0 {
        0
    } else {
        (r / 1000) % 6
    }
}

/// Pick the fragment sprite for an impact position.
pub fn debris_variant(pos: Vec2) -> (v: u8)
    ensures
        v as int == spec_debris_variant(pos),
{
    let r: i64 = pos.x as i64 * 1008 - pos.y as i64 * 2502;
    if r <= 0 {
        0
    } else {
        ((r / 1000) % 6) as u8
    }
}

/// Everything one `PlayerDamaged` event produces: the debris fragment and
/// the spawn requests of the split (two identical children, or none).
/// Each child sits two units behind the impact point along the negated hit
/// velocity and flies back along it.
pub open spec fn spec_damage_outcome(ev: PlayerDamaged, player_vel: Vec2, debris_id: u64)
    -> (DebrisBody, Seq<SpawnSlimeBall>) {
    let debris = DebrisBody {
        id: debris_id,
        pos: ev.pos,
        vel: ev.vel,
        variant: spec_debris_variant(ev.pos) as u8,
    };
    let speed = spec_magnitude(player_vel);
    if spec_splits(ev.angle_milli as int, speed, ev.slime_ball_health as int) {
        let child = SpawnSlimeBall {
            position: Some(spec_minus(ev.pos, spec_scaled(spec_unit_milli(ev.vel), 2))),
            velocity: Some(spec_negated(ev.vel)),
            health: spec_child_health(ev.angle_milli as int, speed,
                ev.slime_ball_health as int) as i32,
        };
        (debris, seq![child, child])
    } else {
        (debris, Seq::empty())
    }
}

/// The outcome of a whole tick's damage events, in order, with the debris
/// fragments numbered consecutively from `first_debris_id`.
pub open spec fn spec_handle_damage(
    evs: Seq<PlayerDamaged>,
    player_vel: Vec2,
    first_debris_id: u64,
) -> (Seq<DebrisBody>, Seq<SpawnSlimeBall>)
    decreases evs.len(),
{
    if evs.len() == 0 {
        (Seq::empty(), Seq::empty())
    } else {
        let first = spec_damage_outcome(evs[0], player_vel, first_debris_id);
        let rest = spec_handle_damage(evs.skip(1), player_vel,
            (first_debris_id + 1) as u64);
        (seq![first.0] + rest.0, first.1 + rest.1)
    }
}

/// One damage event retaliates with exactly two children when the split
/// rule fires and with none otherwise -- never with one -- and the two
/// children are identical.
pub proof fn lemma_split_two_or_none(ev: PlayerDamaged, player_vel: Vec2, debris_id: u64)
    ensures
        ({
            let out = spec_damage_outcome(ev, player_vel, debris_id);
            let firing = spec_splits(ev.angle_milli as int, spec_magnitude(player_vel),
                ev.slime_ball_health as int);
            &&& out.1.len() == (if firing { 2int } else { 0int })
            &&& (firing ==> out.1[0] == out.1[1])
        }),
{
}

/// A whole tick's spawn requests from the damage handler come in pairs:
/// the count is even, whatever the events were.
pub proof fn lemma_children_in_pairs(
    evs: Seq<PlayerDamaged>,
    player_vel: Vec2,
    first_debris_id: u64,
)
    ensures
        spec_handle_damage(evs, player_vel, first_debris_id).1.len() % 2 == 0,
    decreases evs.len(),
{
    if evs.len() != 0 {
        lemma_split_two_or_none(evs[0], player_vel, first_debris_id);
        lemma_children_in_pairs(evs.skip(1), player_vel, (first_debris_id + 1) as u64);
    }
}

/// How much a tick's damage events produce: one debris fragment per event
/// and at most two spawn requests per event.
pub proof fn lemma_handle_damage_bounds(
    evs: Seq<PlayerDamaged>,
    player_vel: Vec2,
    first_debris_id: u64,
)
    ensures
        ({
            let t = spec_handle_damage(evs, player_vel, first_debris_id);
            t.0.len() == evs.len() && t.1.len() <= 2 * evs.len()
        }),
    decreases evs.len(),
{
    if evs.len() != 0 {
        lemma_handle_damage_bounds(evs.skip(1), player_vel, (first_debris_id + 1) as u64);
    }
}

impl PlayerDamaged {
    /// React to this tick's damage events: one cursor-disarm status and
    /// one debris fragment per event, plus the split's spawn requests.
    /// `player_vel` is the player's velocity as the physics provider
    /// reports it this tick.
    pub fn handle_event(
        evs: &Vec<PlayerDamaged>,
        player_vel: Vec2,
        first_debris_id: u64,
    ) -> (r: (Vec<TargetStatus>, Vec<DebrisBody>, Vec<SpawnSlimeBall>))
        requires
            first_debris_id + evs@.len() <= u64::MAX,
        ensures
            r.0@.len() == evs@.len(),
            forall|i: int| 0 <= i < evs@.len() ==> r.0@[i] == TargetStatus(false),
            ({
                let t = spec_handle_damage(evs@, player_vel, first_debris_id);
                r.1@ == t.0 && r.2@ == t.1
            }),
    {
        let ghost t = spec_handle_damage(evs@, player_vel, first_debris_id);
        let speed: u64 = player_vel.magnitude();
        let mut statuses: Vec<TargetStatus> = Vec::new();
        let mut debris: Vec<DebrisBody> = Vec::new();
        let mut spawns: Vec<SpawnSlimeBall> = Vec::new();
        let mut k: usize = 0;
        proof {
            assert(evs@.skip(0) =~= evs@);
        }
        while k < evs.len()
            invariant
                k <= evs@.len(),
                first_debris_id + evs@.len() <= u64::MAX,
                speed as int == spec_magnitude(player_vel),
                speed < 0x1_0000_0000u64,
                t == spec_handle_damage(evs@, player_vel, first_debris_id),
                statuses@.len() == k,
                forall|i: int| 0 <= i < k ==> statuses@[i] == TargetStatus(false),
                ({
                    let rem = spec_handle_damage(evs@.skip(k as int), player_vel,
                        (first_debris_id + k) as u64);
                    t.0 == debris@ + rem.0 && t.1 == spawns@ + rem.1
                }),
            decreases evs.len() - k,
        {
            proof {
                assert(evs@.skip(k as int)[0] == evs@[k as int]);
                assert(evs@.skip(k as int).skip(1) =~= evs@.skip(k as int + 1));
            }
            let ev = evs[k];
            statuses.push(TargetStatus(false));
            debris.push(DebrisBody {
                id: first_debris_id + k as u64,
                pos: ev.pos,
                vel: ev.vel,
                variant: debris_variant(ev.pos),
            });
            match split_decision(ev.angle_milli, speed, ev.slime_ball_health) {
                None => {},
                Some(child_health) => {
                    let child_pos = ev.pos.minus(ev.vel.unit_milli().scaled(2));
                    let child_vel = ev.vel.negated();
                    let child = SpawnSlimeBall {
                        position: Some(child_pos),
                        velocity: Some(child_vel),
                        health: child_health,
                    };
                    spawns.push(child);
                    spawns.push(child);
                },
            }
            proof {
                let rem_after = spec_handle_damage(evs@.skip(k as int + 1), player_vel,
                    (first_debris_id + k + 1) as u64);
                assert(t.0 =~= debris@ + rem_after.0);
                assert(t.1 =~= spawns@ + rem_after.1);
            }
            k = k + 1;
        }
        proof {
            assert(evs@.skip(evs@.len() as int) =~= Seq::<PlayerDamaged>::empty());
            assert(t.0 =~= debris@);
            assert(t.1 =~= spawns@);
        }
        (statuses, debris, spawns)
    }
}

} // verus!
