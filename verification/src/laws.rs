//! The temporal laws of the scheduler, proved over [`crate::world::spec_tick`].
//!
//! Each law is stated for an arbitrary world and tick input, so it holds
//! of every run of [`crate::world::World::tick`].

use vstd::prelude::*;
use crate::events::ContactEvent;
use crate::game::Phase;
use crate::geom::Vec2;
use crate::slime_ball::{lemma_contacts_started_frame, opt_seq, spec_apply_despawns,
    spec_ball_of_contact, spec_find_ball, spec_on_contacts_started, spec_on_contacts_stopped,
    spec_started_step, spec_stopped_step, Projectile};
use crate::world::{spec_apply_sync, spec_sync_step, spec_tick, TickInView, WorldView};

verus! {

/// The contact-end pass changes solver groups alone: position by
/// position, everything else survives.
pub proof fn lemma_contacts_stopped_frame(ps: Seq<Projectile>, evs: Seq<ContactEvent>)
    ensures
        ({
            let t = spec_on_contacts_stopped(ps, evs);
            t.0.len() == ps.len() && (forall|i: int| 0 <= i < ps.len()
                ==> (#[trigger] t.0[i]).id == ps[i].id
                    && t.0[i].ball == ps[i].ball
                    && t.0[i].pos == ps[i].pos
                    && t.0[i].vel == ps[i].vel
                    && t.0[i].facing == ps[i].facing
                    && t.0[i].angle_milli == ps[i].angle_milli)
        }),
    decreases evs.len(),
{
    if evs.len() != 0 {
        let first = match evs[0] {
            ContactEvent::Stopped(a, b) => spec_stopped_step(ps, a, b),
            ContactEvent::Started(_, _) => (ps, None),
        };
        assert(first.0.len() == ps.len() && forall|i: int| 0 <= i < ps.len()
            ==> (#[trigger] first.0[i]).id == ps[i].id
                && first.0[i].ball == ps[i].ball
                && first.0[i].pos == ps[i].pos
                && first.0[i].vel == ps[i].vel
                && first.0[i].facing == ps[i].facing
                && first.0[i].angle_milli == ps[i].angle_milli) by {
            match evs[0] {
                ContactEvent::Stopped(a, b) => {
                    match spec_ball_of_contact(ps, a, b) {
                        None => {},
                        Some((i, other)) => {
                            crate::slime_ball::lemma_find_ball(ps, a);
                            crate::slime_ball::lemma_find_ball(ps, b);
                            assert(0 <= i < ps.len());
                        },
                    }
                },
                ContactEvent::Started(_, _) => {},
            }
        }
        lemma_contacts_stopped_frame(first.0, evs.skip(1));
        let rest = spec_on_contacts_stopped(first.0, evs.skip(1));
        assert forall|i: int| 0 <= i < ps.len()
            implies (#[trigger] rest.0[i]).id == ps[i].id
                && rest.0[i].ball == ps[i].ball
                && rest.0[i].pos == ps[i].pos
                && rest.0[i].vel == ps[i].vel
                && rest.0[i].facing == ps[i].facing
                && rest.0[i].angle_milli == ps[i].angle_milli by {
            assert(rest.0[i].id == first.0[i].id);
        }
    }
}

/// The state report changes position, velocity and angle alone: the ball
/// component, identifier, facing and groups survive, position by
/// position.
pub proof fn lemma_apply_sync_frame(ps: Seq<Projectile>, sync: Seq<crate::world::BodySync>)
    ensures
        ({
            let t = spec_apply_sync(ps, sync);
            t.len() == ps.len() && (forall|i: int| 0 <= i < ps.len()
                ==> (#[trigger] t[i]).id == ps[i].id
                    && t[i].ball == ps[i].ball
                    && t[i].facing == ps[i].facing
                    && t[i].groups == ps[i].groups)
        }),
    decreases sync.len(),
{
    if sync.len() != 0 {
        let first = spec_sync_step(ps, sync[0]);
        assert(first.len() == ps.len() && forall|i: int| 0 <= i < ps.len()
            ==> (#[trigger] first[i]).id == ps[i].id
                && first[i].ball == ps[i].ball
                && first[i].facing == ps[i].facing
                && first[i].groups == ps[i].groups) by {
            match spec_find_ball(ps, sync[0].id) {
                None => {},
                Some(i) => {
                    crate::slime_ball::lemma_find_ball(ps, sync[0].id);
                    assert(0 <= i < ps.len());
                },
            }
        }
        lemma_apply_sync_frame(first, sync.skip(1));
        let rest = spec_apply_sync(first, sync.skip(1));
        assert forall|i: int| 0 <= i < ps.len()
            implies (#[trigger] rest[i]).id == ps[i].id
                && rest[i].ball == ps[i].ball
                && rest[i].facing == ps[i].facing
                && rest[i].groups == ps[i].groups by {
            assert(rest[i].id == first[i].id);
        }
    }
}

/// Everything that survives the despawn pass was already there.
pub proof fn lemma_apply_despawns_subset(
    ps: Seq<Projectile>,
    ids: Seq<crate::events::DespawnEntity>,
)
    ensures
        ({
            let t = spec_apply_despawns(ps, ids);
            forall|k: int| 0 <= k < t.len() ==> ps.contains(#[trigger] t[k])
        }),
    decreases ps.len(),
{
    if ps.len() != 0 {
        lemma_apply_despawns_subset(ps.skip(1), ids);
        let t = spec_apply_despawns(ps, ids);
        let rest = spec_apply_despawns(ps.skip(1), ids);
        assert forall|k: int| 0 <= k < t.len() implies ps.contains(#[trigger] t[k]) by {
            if crate::slime_ball::spec_despawn_listed(ids, ps[0].id) {
                assert(t[k] == rest[k]);
                assert(ps.skip(1).contains(rest[k]));
                let j = choose|j: int| 0 <= j < ps.skip(1).len() && ps.skip(1)[j] == rest[k];
                assert(ps[j + 1] == rest[k]);
            } else {
                if k == 0 {
                    assert(ps[0] == t[0]);
                } else {
                    assert(t[k] == rest[k - 1]);
                    assert(ps.skip(1).contains(rest[k - 1]));
                    let j = choose|j: int| 0 <= j < ps.skip(1).len()
                        && ps.skip(1)[j] == rest[k - 1];
                    assert(ps[j + 1] == rest[k - 1]);
                }
            }
        }
    }
}

/// Phase monotonicity within a round: out of `Main`, without the debug
/// override, a tick moves the match to `TransDead` exactly when a removal
/// empties the arena, and otherwise leaves it in `Main` -- it never jumps
/// ahead to `Dead`.
pub proof fn lemma_phase_main_round_over(v: WorldView, i: TickInView)
    requires
        v.game.phase == Phase::Main,
        !i.debug_pressed,
    ensures
        ({
            let r = spec_tick(v, i);
            &&& !r.1.terminated
            &&& r.0.game.phase == (if r.1.removed_this_tick && r.0.projectiles.len() == 0 {
                Phase::TransDead
            } else {
                Phase::Main
            })
        }),
{
}

/// The round closes through `TransDead`, one tick at a time: a tick out
/// of `TransDead`, without the debug override, always lands on `Dead` --
/// the win screen is never skipped.
pub proof fn lemma_trans_dead_reaches_dead(v: WorldView, i: TickInView)
    requires
        v.game.phase == Phase::TransDead,
        !i.debug_pressed,
    ensures
        ({
            let r = spec_tick(v, i);
            !r.1.terminated && r.0.game.phase == Phase::Dead
        }),
{
}

/// Round-over is edge-triggered: a tick in which no projectile was
/// actually removed never ends in `TransDead`, no matter how long the
/// arena has already been empty.
pub proof fn lemma_round_over_needs_removal(v: WorldView, i: TickInView)
    requires
        v.game.phase != Phase::TransDead,
    ensures
        ({
            let r = spec_tick(v, i);
            !r.1.removed_this_tick ==> r.0.game.phase != Phase::TransDead
        }),
{
}

/// The invincibility window closes after one tick: every projectile that
/// is invincible when a tick ends was spawned by that very tick, and
/// every projectile a tick spawns starts invincible.  A ball that
/// survives into a later tick is therefore vulnerable from the start of
/// that tick on, contact or no contact.
pub proof fn lemma_invincibility_window(v: WorldView, i: TickInView)
    ensures
        ({
            let r = spec_tick(v, i);
            &&& (forall|j: int| 0 <= j < r.1.spawned.len()
                ==> (#[trigger] r.1.spawned[j]).ball.invincible)
            &&& (!r.1.terminated ==> forall|k: int| 0 <= k < r.0.projectiles.len()
                ==> ((#[trigger] r.0.projectiles[k]).ball.invincible
                    ==> r.1.spawned.contains(r.0.projectiles[k])))
        }),
{
    let r = spec_tick(v, i);
    let ps0 = spec_apply_sync(v.projectiles, i.sync);
    let ps1 = crate::slime_ball::spec_lifecycle(ps0);
    assert forall|j: int| 0 <= j < r.1.spawned.len()
        implies (#[trigger] r.1.spawned[j]).ball.invincible by {}
    if !spec_step_terminates_here(v, i) {
        let stopped = spec_on_contacts_stopped(ps1, i.contacts);
        let started = spec_on_contacts_started(stopped.0, v.player.id,
            player_after_phase(v, i).pos, i.contacts);
        lemma_contacts_stopped_frame(ps1, i.contacts);
        lemma_contacts_started_frame(stopped.0, v.player.id,
            player_after_phase(v, i).pos, i.contacts);
        assert forall|k: int| 0 <= k < started.0.len()
            implies !(#[trigger] started.0[k]).ball.invincible by {
            assert(started.0[k].ball.invincible == stopped.0[k].ball.invincible);
            assert(stopped.0[k].ball == ps1[k].ball);
            assert(ps1[k] == crate::slime_ball::spec_lifecycle_ball(ps0[k]));
        }
        let spawned = r.1.spawned;
        let ps3 = started.0 + spawned;
        lemma_apply_despawns_subset(ps3, r.1.despawned);
        assert forall|k: int| 0 <= k < r.0.projectiles.len()
            implies ((#[trigger] r.0.projectiles[k]).ball.invincible
                ==> spawned.contains(r.0.projectiles[k])) by {
            if r.0.projectiles[k].ball.invincible {
                assert(ps3.contains(r.0.projectiles[k]));
                let j = choose|j: int| 0 <= j < ps3.len() && ps3[j] == r.0.projectiles[k];
                if j < started.0.len() {
                    assert(!started.0[j].ball.invincible);
                } else {
                    assert(spawned[j - started.0.len()] == r.0.projectiles[k]);
                }
            }
        }
    }
}

/// Health decreases monotonically: every projectile that survives a tick
/// and was not spawned by it descends from a reported projectile with the
/// same identifier and at least as much health.  Health is changed by the
/// contact resolver alone, and only downward.
pub proof fn lemma_health_monotone(v: WorldView, i: TickInView)
    ensures
        ({
            let r = spec_tick(v, i);
            let ps0 = spec_apply_sync(v.projectiles, i.sync);
            !r.1.terminated ==> forall|k: int| 0 <= k < r.0.projectiles.len()
                ==> (r.1.spawned.contains(#[trigger] r.0.projectiles[k])
                    || exists|j: int| 0 <= j < ps0.len()
                        && (#[trigger] ps0[j]).id == r.0.projectiles[k].id
                        && r.0.projectiles[k].ball.health <= ps0[j].ball.health)
        }),
{
    let r = spec_tick(v, i);
    let ps0 = spec_apply_sync(v.projectiles, i.sync);
    let ps1 = crate::slime_ball::spec_lifecycle(ps0);
    if !spec_step_terminates_here(v, i) {
        let stopped = spec_on_contacts_stopped(ps1, i.contacts);
        let started = spec_on_contacts_started(stopped.0, v.player.id,
            player_after_phase(v, i).pos, i.contacts);
        lemma_contacts_stopped_frame(ps1, i.contacts);
        lemma_contacts_started_frame(stopped.0, v.player.id,
            player_after_phase(v, i).pos, i.contacts);
        let spawned = r.1.spawned;
        let ps3 = started.0 + spawned;
        lemma_apply_despawns_subset(ps3, r.1.despawned);
        assert forall|k: int| 0 <= k < r.0.projectiles.len()
            implies (spawned.contains(#[trigger] r.0.projectiles[k])
                || exists|j: int| 0 <= j < ps0.len()
                    && (#[trigger] ps0[j]).id == r.0.projectiles[k].id
                    && r.0.projectiles[k].ball.health <= ps0[j].ball.health) by {
            assert(ps3.contains(r.0.projectiles[k]));
            let j = choose|j: int| 0 <= j < ps3.len() && ps3[j] == r.0.projectiles[k];
            if j < started.0.len() {
                assert(started.0[j].id == stopped.0[j].id);
                assert(started.0[j].ball.health <= stopped.0[j].ball.health);
                assert(stopped.0[j].ball == ps1[j].ball);
                assert(ps1[j] == crate::slime_ball::spec_lifecycle_ball(ps0[j]));
                assert(0 <= j < ps0.len() && ps0[j].id == r.0.projectiles[k].id
                    && r.0.projectiles[k].ball.health <= ps0[j].ball.health);
            } else {
                assert(spawned[j - started.0.len()] == r.0.projectiles[k]);
            }
        }
    }
}

/// The player considered by the controller's reset, as one tick sees it.
spec fn player_after_phase(v: WorldView, i: TickInView) -> crate::player::Player {
    let player1 = crate::player::Player { pos: i.player_pos, vel: i.player_vel, ..v.player };
    if v.game.phase == Phase::TransDead {
        crate::player::Player {
            pos: Vec2 { x: player1.pos.x, y: crate::player::PLAYER_REST_Y },
            vel: Vec2 { x: 0, y: 0 },
            ..player1
        }
    } else {
        player1
    }
}

/// Whether the tick terminates the simulation.
spec fn spec_step_terminates_here(v: WorldView, i: TickInView) -> bool {
    crate::game::spec_step_terminates(v.game.phase, i.pressed)
}

} // verus!
