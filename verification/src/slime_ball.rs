//! Projectiles: spawning, contact damage, and per-tick lifecycle.
//!
//! A slime ball carries health and a one-tick invincibility flag.  Contact
//! notifications from the physics provider turn into damage (a fixed 25
//! against the player, 15 against anything else), into `PlayerDamaged`
//! events, and into despawn requests once health runs out or a ball leaves
//! the play area.

use vstd::prelude::*;
use crate::events::{ContactEvent, DespawnEntity, PlayerDamaged};
use crate::geom::{sat32, Vec2};
use crate::layers::{spec_projectile_free_groups, spec_projectile_spawn_groups, Groups,
    projectile_free_groups, projectile_spawn_groups};

verus! {

/// Health lost when a projectile strikes the player.
pub const PLAYER_HIT_DAMAGE: i32 = 25;

/// Health lost when a projectile strikes anything else (terrain, another
/// ball).
pub const OTHER_HIT_DAMAGE: i32 = 15;

/// Health of a freshly fired projectile.
pub const INITIAL_HEALTH: i32 = 100;

/// Default spawn height in milli-units: a little above the top of the
/// arena, horizontally centered.
pub const DEFAULT_SPAWN_Y: i32 = 15360;

/// Default downward velocity component in milli-units per tick.
pub const DEFAULT_FALL_VY: i32 = -100;

/// The slime-ball component: what a projectile is, apart from where it is.
#[derive(Clone, Copy, Debug, PartialEq, Eq, Structural)]
pub struct SlimeBall {
    pub health: i32,
    pub invincible: bool,
}

/// A request to spawn a projectile.  Position and velocity may be omitted;
/// health is taken as given, without validation.
#[derive(Clone, Copy, Debug, PartialEq, Eq, Structural)]
pub struct SpawnSlimeBall {
    pub position: Option<Vec2>,
    pub velocity: Option<Vec2>,
    pub health: i32,
}

/// A live projectile: the ball component plus the state the physics
/// provider reports for it each tick.
#[derive(Clone, Copy, Debug, PartialEq, Eq, Structural)]
pub struct Projectile {
    pub id: u64,
    pub ball: SlimeBall,
    pub pos: Vec2,
    pub vel: Vec2,
    /// The direction the sprite faces: the velocity mirrored across the
    /// vertical axis.  The renderer turns it into a rotation with its own
    /// four-quadrant arctangent.
    pub facing: Vec2,
    /// The solver interaction group currently applied to the ball's
    /// collider.
    pub groups: Groups,
    /// The angle between the player's velocity and this ball's velocity,
    /// in thousandths of a half-turn, as last reported by the physics
    /// provider.
    pub angle_milli: u32,
}

/// Health after taking `d` damage: plain subtraction, held at the bottom
/// of the `i32` range.
pub open spec fn spec_damaged(h: int, d: int) -> int {
    if h - d < i32::MIN as int {
        i32::MIN as int
    } else {
        h - d
    }
}

/// Apply damage to a health value.
pub fn take_damage(h: i32, d: i32) -> (r: i32)
    requires
        d >= 0,
    ensures
        r as int == spec_damaged(h as int, d as int),
        r <= h,
{
    if h >= i32::MIN + d {
        h - d
    } else {
        i32::MIN
    }
}

/// The first projectile with the given body identifier, if any.
pub open spec fn spec_find_ball(ps: Seq<Projectile>, id: u64) -> Option<int>
    decreases ps.len(),
{
    if ps.len() == 0 {
        None
    } else if ps[0].id == id {
        Some(0int)
    } else {
        match spec_find_ball(ps.skip(1), id) {
            None => None,
            Some(i) => Some(i + 1),
        }
    }
}

/// What `spec_find_ball` finds: the first index carrying the identifier.
pub proof fn lemma_find_ball(ps: Seq<Projectile>, id: u64)
    ensures
        match spec_find_ball(ps, id) {
            None => forall|j: int| 0 <= j < ps.len() ==> ps[j].id != id,
            Some(i) => 0 <= i < ps.len() && ps[i].id == id
                && (forall|j: int| 0 <= j < i ==> ps[j].id != id),
        },
    decreases ps.len(),
{
    if ps.len() != 0 && ps[0].id != id {
        lemma_find_ball(ps.skip(1), id);
        assert forall|j: int| 1 <= j < ps.len() implies ps.skip(1)[j - 1] == ps[j] by {}
    }
}

/// Find the first projectile with the given identifier.
pub fn find_ball(ps: &Vec<Projectile>, id: u64) -> (r: Option<usize>)
    ensures
        match r {
            None => spec_find_ball(ps@, id) is None,
            Some(i) => i < ps.len() && ps@[i as int].id == id
                && spec_find_ball(ps@, id) == Some(i as int),
        },
{
    let mut k: usize = 0;
    while k < ps.len()
        invariant
            k <= ps.len(),
            forall|j: int| 0 <= j < k ==> ps@[j].id != id,
        decreases ps.len() - k,
    {
        if ps[k].id == id {
            proof {
                lemma_find_ball(ps@, id);
            }
            return Some(k);
        }
        k = k + 1;
    }
    proof {
        lemma_find_ball(ps@, id);
    }
    None
}

/// One contact-begin notification, resolved against the projectile set:
/// the struck projectile (first match on the pair, first body preferred)
/// and the other body of the pair.
pub open spec fn spec_ball_of_contact(ps: Seq<Projectile>, a: u64, b: u64) -> Option<(int, u64)> {
    match spec_find_ball(ps, a) {
        Some(i) => Some((i, b)),
        None => match spec_find_ball(ps, b) {
            Some(i) => Some((i, a)),
            None => None,
        },
    }
}

/// The effect of one contact-begin event: the updated projectile set, the
/// `PlayerDamaged` event if the player was struck, and the despawn request
/// if the hit exhausted the ball's health.  An invincible ball shrugs the
/// contact off entirely.
pub open spec fn spec_started_step(
    ps: Seq<Projectile>,
    player_id: u64,
    player_pos: Vec2,
    a: u64,
    b: u64,
) -> (Seq<Projectile>, Option<PlayerDamaged>, Option<DespawnEntity>) {
    match spec_ball_of_contact(ps, a, b) {
        None => (ps, None, None),
        Some((i, other)) => {
            let p = ps[i];
            if p.ball.invincible {
                (ps, None, None)
            } else {
                let d = if other == player_id { PLAYER_HIT_DAMAGE } else { OTHER_HIT_DAMAGE };
                let h2 = spec_damaged(p.ball.health as int, d as int);
                let p2 = Projectile {
                    ball: SlimeBall { health: h2 as i32, invincible: p.ball.invincible },
                    ..p
                };
                let ev = if other == player_id {
                    Some(PlayerDamaged {
                        pos: player_pos,
                        vel: p.vel,
                        slime_ball_health: h2 as i32,
                        angle_milli: p.angle_milli,
                    })
                } else {
                    None
                };
                let de = if h2 <= 0 {
                    Some(DespawnEntity(p.id))
                } else {
                    None
                };
                (ps.update(i, p2), ev, de)
            }
        },
    }
}

/// How much a tick's contact-begin notifications can produce: at most one
/// damage event and one despawn request per notification, and the
/// projectile population keeps its size.
pub proof fn lemma_contacts_started_len(
    ps: Seq<Projectile>,
    player_id: u64,
    player_pos: Vec2,
    evs: Seq<ContactEvent>,
)
    ensures
        ({
            let t = spec_on_contacts_started(ps, player_id, player_pos, evs);
            t.0.len() == ps.len() && t.1.len() <= evs.len() && t.2.len() <= evs.len()
        }),
    decreases evs.len(),
{
    if evs.len() != 0 {
        let first = match evs[0] {
            ContactEvent::Started(a, b) => spec_started_step(ps, player_id, player_pos, a, b),
            ContactEvent::Stopped(_, _) => (ps, None, None),
        };
        assert(first.0.len() == ps.len()) by {
            match evs[0] {
                ContactEvent::Started(a, b) => {
                    match spec_ball_of_contact(ps, a, b) {
                        None => {},
                        Some((i, other)) => {
                            lemma_find_ball(ps, a);
                            lemma_find_ball(ps, b);
                            assert(0 <= i < ps.len());
                        },
                    }
                },
                ContactEvent::Stopped(_, _) => {},
            }
        }
        assert(opt_seq(first.1).len() <= 1 && opt_seq(first.2).len() <= 1);
        lemma_contacts_started_len(first.0, player_id, player_pos, evs.skip(1));
    }
}

/// Whether a contact-begin notification names this body.
pub open spec fn spec_contact_names(ev: ContactEvent, id: u64) -> bool {
    match ev {
        ContactEvent::Started(a, b) => a == id || b == id,
        ContactEvent::Stopped(_, _) => false,
    }
}

/// No contact-begin notification of the tick names this body.
pub open spec fn spec_unnamed(evs: Seq<ContactEvent>, id: u64) -> bool {
    forall|j: int| 0 <= j < evs.len() ==> !spec_contact_names(#[trigger] evs[j], id)
}

/// A projectile no contact-begin notification names comes through the
/// pass exactly as it was: in particular its health is unchanged.
pub proof fn lemma_contacts_health_untouched(
    ps: Seq<Projectile>,
    player_id: u64,
    player_pos: Vec2,
    evs: Seq<ContactEvent>,
)
    ensures
        ({
            let t = spec_on_contacts_started(ps, player_id, player_pos, evs);
            forall|k: int| 0 <= k < ps.len() && spec_unnamed(evs, ps[k].id)
                ==> #[trigger] t.0[k] == ps[k]
        }),
    decreases evs.len(),
{
    lemma_contacts_started_len(ps, player_id, player_pos, evs);
    if evs.len() != 0 {
        let first = match evs[0] {
            ContactEvent::Started(a, b) => spec_started_step(ps, player_id, player_pos, a, b),
            ContactEvent::Stopped(_, _) => (ps, None, None),
        };
        lemma_contacts_started_len(first.0, player_id, player_pos, evs.skip(1));
        lemma_contacts_health_untouched(first.0, player_id, player_pos, evs.skip(1));
        let t = spec_on_contacts_started(ps, player_id, player_pos, evs);
        let rest = spec_on_contacts_started(first.0, player_id, player_pos, evs.skip(1));
        assert forall|k: int| 0 <= k < ps.len() && spec_unnamed(evs, ps[k].id)
            implies #[trigger] t.0[k] == ps[k] by {
            assert(!spec_contact_names(evs[0], ps[k].id));
            assert(first.0[k] == ps[k]) by {
                match evs[0] {
                    ContactEvent::Started(a, b) => {
                        match spec_ball_of_contact(ps, a, b) {
                            None => {},
                            Some((i, other)) => {
                                lemma_find_ball(ps, a);
                                lemma_find_ball(ps, b);
                                assert(ps[i].id == a || ps[i].id == b);
                                assert(i != k);
                            },
                        }
                    },
                    ContactEvent::Stopped(_, _) => {},
                }
            }
            assert(spec_unnamed(evs.skip(1), first.0[k].id)) by {
                assert forall|j: int| 0 <= j < evs.skip(1).len()
                    implies !spec_contact_names(#[trigger] evs.skip(1)[j], first.0[k].id) by {
                    assert(evs.skip(1)[j] == evs[j + 1]);
                    assert(!spec_contact_names(evs[j + 1], ps[k].id));
                }
            }
            assert(rest.0[k] == first.0[k]);
        }
    }
}

/// Invincible projectiles are skipped entirely by the contact-begin
/// pass, however many notifications name them: a ball whose grace window
/// is open comes through exactly as it was, and every despawn request of
/// the pass names a ball that was vulnerable.
pub proof fn lemma_contacts_skip_invincible(
    ps: Seq<Projectile>,
    player_id: u64,
    player_pos: Vec2,
    evs: Seq<ContactEvent>,
)
    ensures
        ({
            let t = spec_on_contacts_started(ps, player_id, player_pos, evs);
            &&& (forall|k: int| 0 <= k < ps.len() && ps[k].ball.invincible
                ==> #[trigger] t.0[k] == ps[k])
            &&& (forall|d: int| 0 <= d < t.2.len() ==> exists|j: int| 0 <= j < ps.len()
                && ps[j].id == (#[trigger] t.2[d]).0 && !ps[j].ball.invincible)
        }),
    decreases evs.len(),
{
    lemma_contacts_started_len(ps, player_id, player_pos, evs);
    if evs.len() != 0 {
        let first = match evs[0] {
            ContactEvent::Started(a, b) => spec_started_step(ps, player_id, player_pos, a, b),
            ContactEvent::Stopped(_, _) => (ps, None, None),
        };
        assert(first.0.len() == ps.len()
            && (forall|k: int| 0 <= k < ps.len()
                ==> (#[trigger] first.0[k]).id == ps[k].id
                    && first.0[k].ball.invincible == ps[k].ball.invincible)
            && (forall|k: int| 0 <= k < ps.len() && ps[k].ball.invincible
                ==> #[trigger] first.0[k] == ps[k])
            && (first.2 is Some ==> exists|j: int| 0 <= j < ps.len()
                && ps[j].id == first.2.unwrap().0 && !ps[j].ball.invincible)) by {
            match evs[0] {
                ContactEvent::Started(a, b) => {
                    match spec_ball_of_contact(ps, a, b) {
                        None => {},
                        Some((i, other)) => {
                            lemma_find_ball(ps, a);
                            lemma_find_ball(ps, b);
                            assert(0 <= i < ps.len());
                        },
                    }
                },
                ContactEvent::Stopped(_, _) => {},
            }
        }
        lemma_contacts_skip_invincible(first.0, player_id, player_pos, evs.skip(1));
        let t = spec_on_contacts_started(ps, player_id, player_pos, evs);
        let rest = spec_on_contacts_started(first.0, player_id, player_pos, evs.skip(1));
        assert forall|k: int| 0 <= k < ps.len() && ps[k].ball.invincible
            implies #[trigger] t.0[k] == ps[k] by {
            assert(first.0[k] == ps[k]);
            assert(rest.0[k] == first.0[k]);
        }
        assert forall|d: int| 0 <= d < t.2.len()
            implies exists|j: int| 0 <= j < ps.len()
                && ps[j].id == (#[trigger] t.2[d]).0 && !ps[j].ball.invincible by {
            if d < opt_seq(first.2).len() {
                assert(t.2[d] == first.2.unwrap());
            } else {
                let d2 = d - opt_seq(first.2).len();
                assert(t.2[d] == rest.2[d2]);
                let j = choose|j: int| 0 <= j < first.0.len()
                    && first.0[j].id == rest.2[d2].0 && !first.0[j].ball.invincible;
                assert(ps[j].id == t.2[d].0 && !ps[j].ball.invincible);
            }
        }
    }
}

/// When every projectile's grace window is open, a tick's contact-begin
/// notifications do nothing at all: no damage, no event, no despawn.
pub proof fn lemma_contacts_all_invincible(
    ps: Seq<Projectile>,
    player_id: u64,
    player_pos: Vec2,
    evs: Seq<ContactEvent>,
)
    requires
        forall|k: int| 0 <= k < ps.len() ==> (#[trigger] ps[k]).ball.invincible,
    ensures
        ({
            let t = spec_on_contacts_started(ps, player_id, player_pos, evs);
            t.0 == ps && t.1 == Seq::<PlayerDamaged>::empty()
                && t.2 == Seq::<DespawnEntity>::empty()
        }),
    decreases evs.len(),
{
    if evs.len() != 0 {
        let first = match evs[0] {
            ContactEvent::Started(a, b) => spec_started_step(ps, player_id, player_pos, a, b),
            ContactEvent::Stopped(_, _) => (ps, None, None),
        };
        assert(first.0 == ps && first.1 is None && first.2 is None) by {
            match evs[0] {
                ContactEvent::Started(a, b) => {
                    match spec_ball_of_contact(ps, a, b) {
                        None => {},
                        Some((i, other)) => {
                            lemma_find_ball(ps, a);
                            lemma_find_ball(ps, b);
                            assert(0 <= i < ps.len());
                            assert(ps[i].ball.invincible);
                        },
                    }
                },
                ContactEvent::Stopped(_, _) => {},
            }
        }
        lemma_contacts_all_invincible(ps, player_id, player_pos, evs.skip(1));
        let t = spec_on_contacts_started(ps, player_id, player_pos, evs);
        let rest = spec_on_contacts_started(ps, player_id, player_pos, evs.skip(1));
        assert(t.1 =~= rest.1);
        assert(t.2 =~= rest.2);
    }
}

/// The contact-begin pass keeps, position by position, each projectile's
/// identifier, position, velocity, invincibility and angle: only health
/// changes.
pub proof fn lemma_contacts_started_frame(
    ps: Seq<Projectile>,
    player_id: u64,
    player_pos: Vec2,
    evs: Seq<ContactEvent>,
)
    ensures
        ({
            let t = spec_on_contacts_started(ps, player_id, player_pos, evs);
            t.0.len() == ps.len() && (forall|i: int| 0 <= i < ps.len()
                ==> (#[trigger] t.0[i]).id == ps[i].id
                    && t.0[i].pos == ps[i].pos
                    && t.0[i].vel == ps[i].vel
                    && t.0[i].facing == ps[i].facing
                    && t.0[i].groups == ps[i].groups
                    && t.0[i].angle_milli == ps[i].angle_milli
                    && t.0[i].ball.invincible == ps[i].ball.invincible
                    && t.0[i].ball.health <= ps[i].ball.health)
        }),
    decreases evs.len(),
{
    lemma_contacts_started_len(ps, player_id, player_pos, evs);
    if evs.len() != 0 {
        let first = match evs[0] {
            ContactEvent::Started(a, b) => spec_started_step(ps, player_id, player_pos, a, b),
            ContactEvent::Stopped(_, _) => (ps, None, None),
        };
        assert(first.0.len() == ps.len() && forall|i: int| 0 <= i < ps.len()
            ==> (#[trigger] first.0[i]).id == ps[i].id
                && first.0[i].pos == ps[i].pos
                && first.0[i].vel == ps[i].vel
                && first.0[i].facing == ps[i].facing
                && first.0[i].groups == ps[i].groups
                && first.0[i].angle_milli == ps[i].angle_milli
                && first.0[i].ball.invincible == ps[i].ball.invincible
                && first.0[i].ball.health <= ps[i].ball.health) by {
            match evs[0] {
                ContactEvent::Started(a, b) => {
                    match spec_ball_of_contact(ps, a, b) {
                        None => {},
                        Some((i, other)) => {
                            lemma_find_ball(ps, a);
                            lemma_find_ball(ps, b);
                            assert(0 <= i < ps.len());
                        },
                    }
                },
                ContactEvent::Stopped(_, _) => {},
            }
        }
        lemma_contacts_started_frame(first.0, player_id, player_pos, evs.skip(1));
        let rest = spec_on_contacts_started(first.0, player_id, player_pos, evs.skip(1));
        assert forall|i: int| 0 <= i < ps.len()
            implies (#[trigger] rest.0[i]).id == ps[i].id
                && rest.0[i].pos == ps[i].pos
                && rest.0[i].vel == ps[i].vel
                && rest.0[i].facing == ps[i].facing
                && rest.0[i].groups == ps[i].groups
                && rest.0[i].angle_milli == ps[i].angle_milli
                && rest.0[i].ball.invincible == ps[i].ball.invincible
                && rest.0[i].ball.health <= ps[i].ball.health by {
            assert(rest.0[i].id == first.0[i].id);
        }
    }
}

/// A sequence of zero or one elements.
pub open spec fn opt_seq<T>(o: Option<T>) -> Seq<T> {
    match o {
        None => Seq::empty(),
        Some(x) => seq![x],
    }
}

/// The effect of a whole tick's contact-begin notifications, in order.
pub open spec fn spec_on_contacts_started(
    ps: Seq<Projectile>,
    player_id: u64,
    player_pos: Vec2,
    evs: Seq<ContactEvent>,
) -> (Seq<Projectile>, Seq<PlayerDamaged>, Seq<DespawnEntity>)
    decreases evs.len(),
{
    if evs.len() == 0 {
        (ps, Seq::empty(), Seq::empty())
    } else {
        let first = match evs[0] {
            ContactEvent::Started(a, b) => spec_started_step(ps, player_id, player_pos, a, b),
            ContactEvent::Stopped(_, _) => (ps, None, None),
        };
        let rest = spec_on_contacts_started(first.0, player_id, player_pos, evs.skip(1));
        (rest.0, opt_seq(first.1) + rest.1, opt_seq(first.2) + rest.2)
    }
}

/// The effect of one contact-end event: the struck projectile's solver
/// group is restored to "collide with everything", undoing the transient
/// spawn fence; the restored ball's identifier is reported.
pub open spec fn spec_stopped_step(
    ps: Seq<Projectile>,
    a: u64,
    b: u64,
) -> (Seq<Projectile>, Option<u64>) {
    match spec_ball_of_contact(ps, a, b) {
        None => (ps, None),
        Some((i, _)) => {
            let p2 = Projectile { groups: spec_projectile_free_groups(), ..ps[i] };
            (ps.update(i, p2), Some(ps[i].id))
        },
    }
}

/// The effect of a whole tick's contact-end notifications, in order.
pub open spec fn spec_on_contacts_stopped(
    ps: Seq<Projectile>,
    evs: Seq<ContactEvent>,
) -> (Seq<Projectile>, Seq<u64>)
    decreases evs.len(),
{
    if evs.len() == 0 {
        (ps, Seq::empty())
    } else {
        let first = match evs[0] {
            ContactEvent::Stopped(a, b) => spec_stopped_step(ps, a, b),
            ContactEvent::Started(_, _) => (ps, None),
        };
        let rest = spec_on_contacts_stopped(first.0, evs.skip(1));
        (rest.0, opt_seq(first.1) + rest.1)
    }
}

/// A position is out of play when its distance from the arena center
/// exceeds the arena half-width of `2048/90` units (`2048000/90`
/// milli-units): squaring and clearing the denominator, when
/// `8100 * (x*x + y*y) > 2048000 * 2048000`.
pub open spec fn spec_out_of_play(pos: Vec2) -> bool {
    8100 * ((pos.x as int) * (pos.x as int) + (pos.y as int) * (pos.y as int)) > 4194304000000
}

/// Whether a position lies outside the play area.
pub fn out_of_play(pos: Vec2) -> (r: bool)
    ensures
        r == spec_out_of_play(pos),
{
    let s: u64 = pos.norm_sq();
    8100u128 * (s as u128) > 4194304000000u128
}

/// One projectile after the start-of-tick lifecycle pass: the
/// invincibility window closes and the sprite turns to face along its
/// velocity mirrored across the vertical axis.
pub open spec fn spec_lifecycle_ball(p: Projectile) -> Projectile {
    Projectile {
        ball: SlimeBall { health: p.ball.health, invincible: false },
        facing: Vec2 { x: sat32(-p.vel.x) as i32, y: p.vel.y },
        ..p
    }
}

/// The despawn requests of the lifecycle pass: one per projectile out of
/// play, in order.
pub open spec fn spec_bounds_despawns(ps: Seq<Projectile>) -> Seq<DespawnEntity>
    decreases ps.len(),
{
    if ps.len() == 0 {
        Seq::empty()
    } else {
        let head: Seq<DespawnEntity> = if spec_out_of_play(ps[0].pos) {
            seq![DespawnEntity(ps[0].id)]
        } else {
            Seq::empty()
        };
        head + spec_bounds_despawns(ps.skip(1))
    }
}

/// A projectile freshly resolved from a spawn request: omitted fields fall
/// back to the top-center spawn point and to a slow fall with the given
/// horizontal drift; the ball starts invincible and fenced off from the
/// terrain.
pub open spec fn spec_resolved_spawn(req: SpawnSlimeBall, id: u64, drift_milli: i32)
    -> Projectile {
    Projectile {
        id,
        ball: SlimeBall { health: req.health, invincible: true },
        pos: match req.position {
            Some(p) => p,
            None => Vec2 { x: 0, y: DEFAULT_SPAWN_Y },
        },
        vel: match req.velocity {
            Some(v) => v,
            None => Vec2 { x: drift_milli, y: DEFAULT_FALL_VY },
        },
        facing: Vec2 { x: 0, y: 1000 },
        groups: spec_projectile_spawn_groups(),
        angle_milli: 0,
    }
}

impl SpawnSlimeBall {
    /// Resolve this tick's spawn requests into live projectiles, giving
    /// them consecutive identifiers starting at `first_id`.  `drift_milli`
    /// is the deterministic horizontal drift the provider derives from the
    /// elapsed time, used for requests that omit a velocity.  Requests are
    /// taken as given: health, even an absurd one, is not validated.
    pub fn handle_event(
        requests: &Vec<SpawnSlimeBall>,
        first_id: u64,
        drift_milli: i32,
    ) -> (spawned: Vec<Projectile>)
        requires
            first_id + requests@.len() <= u64::MAX,
        ensures
            spawned@ == spec_resolved_spawns(requests@, first_id, drift_milli),
            spawned@.len() == requests@.len(),
            forall|i: int| 0 <= i < requests@.len()
                ==> spawned@[i] == spec_resolved_spawn(requests@[i], (first_id + i) as u64,
                    drift_milli),
    {
        let mut spawned: Vec<Projectile> = Vec::new();
        let mut k: usize = 0;
        while k < requests.len()
            invariant
                k <= requests@.len(),
                first_id + requests@.len() <= u64::MAX,
                spawned@.len() == k,
                forall|i: int| 0 <= i < k
                    ==> spawned@[i] == spec_resolved_spawn(requests@[i], (first_id + i) as u64,
                        drift_milli),
            decreases requests.len() - k,
        {
            let req = requests[k];
            let pos = match req.position {
                Some(p) => p,
                None => Vec2 { x: 0, y: DEFAULT_SPAWN_Y },
            };
            let vel = match req.velocity {
                Some(v) => v,
                None => Vec2 { x: drift_milli, y: DEFAULT_FALL_VY },
            };
            spawned.push(Projectile {
                id: first_id + k as u64,
                ball: SlimeBall { health: req.health, invincible: true },
                pos,
                vel,
                facing: Vec2 { x: 0, y: 1000 },
                groups: projectile_spawn_groups(),
                angle_milli: 0,
            });
            k = k + 1;
        }
        proof {
            assert(spawned@ =~= spec_resolved_spawns(requests@, first_id, drift_milli));
        }
        spawned
    }
}

/// The projectiles resolved from a tick's spawn requests, with
/// consecutive identifiers from `first_id`.
pub open spec fn spec_resolved_spawns(
    requests: Seq<SpawnSlimeBall>,
    first_id: u64,
    drift_milli: i32,
) -> Seq<Projectile> {
    Seq::new(requests.len(), |j: int| spec_resolved_spawn(requests[j], (first_id + j) as u64,
        drift_milli))
}

/// The whole projectile set after the lifecycle pass.
pub open spec fn spec_lifecycle(ps: Seq<Projectile>) -> Seq<Projectile> {
    Seq::new(ps.len(), |i: int| spec_lifecycle_ball(ps[i]))
}

/// Whether some request in the list names this identifier.
pub open spec fn spec_despawn_listed(ids: Seq<DespawnEntity>, id: u64) -> bool {
    exists|i: int| 0 <= i < ids.len() && ids[i].0 == id
}

/// The projectiles that survive the tick's despawn requests, in order.
pub open spec fn spec_apply_despawns(ps: Seq<Projectile>, ids: Seq<DespawnEntity>)
    -> Seq<Projectile>
    decreases ps.len(),
{
    if ps.len() == 0 {
        Seq::empty()
    } else {
        let head: Seq<Projectile> = if spec_despawn_listed(ids, ps[0].id) {
            Seq::empty()
        } else {
            seq![ps[0]]
        };
        head + spec_apply_despawns(ps.skip(1), ids)
    }
}

/// Whether some despawn request names this identifier.
fn despawn_listed(ids: &Vec<DespawnEntity>, id: u64) -> (r: bool)
    ensures
        r == spec_despawn_listed(ids@, id),
{
    let mut k: usize = 0;
    while k < ids.len()
        invariant
            k <= ids@.len(),
            forall|j: int| 0 <= j < k ==> ids@[j].0 != id,
        decreases ids.len() - k,
    {
        if ids[k].0 == id {
            return true;
        }
        k = k + 1;
    }
    false
}

impl DespawnEntity {
    /// Apply this tick's despawn requests: every projectile named by a
    /// request is removed, the rest keep their order.
    pub fn handle_event(
        projectiles: &mut Vec<Projectile>,
        despawns: &Vec<DespawnEntity>,
    )
        ensures
            final(projectiles)@ == spec_apply_despawns(old(projectiles)@, despawns@),
    {
        let mut kept: Vec<Projectile> = Vec::new();
        let mut k: usize = 0;
        proof {
            assert(projectiles@.skip(0) =~= projectiles@);
            assert(kept@ + spec_apply_despawns(projectiles@, despawns@)
                =~= spec_apply_despawns(projectiles@, despawns@));
        }
        while k < projectiles.len()
            invariant
                k <= projectiles@.len(),
                kept@ + spec_apply_despawns(projectiles@.skip(k as int), despawns@)
                    == spec_apply_despawns(projectiles@, despawns@),
            decreases projectiles.len() - k,
        {
            proof {
                assert(projectiles@.skip(k as int)[0] == projectiles@[k as int]);
                assert(projectiles@.skip(k as int).skip(1) =~= projectiles@.skip(k as int + 1));
            }
            let p = projectiles[k];
            if !despawn_listed(despawns, p.id) {
                kept.push(p);
            }
            proof {
                assert(kept@ + spec_apply_despawns(projectiles@.skip(k as int + 1), despawns@)
                    =~= spec_apply_despawns(projectiles@, despawns@));
            }
            k = k + 1;
        }
        proof {
            assert(projectiles@.skip(projectiles@.len() as int)
                =~= Seq::<Projectile>::empty());
            assert(kept@ =~= spec_apply_despawns(projectiles@, despawns@));
        }
        *projectiles = kept;
    }
}

impl SlimeBall {
    /// The start-of-tick lifecycle pass: close every ball's invincibility
    /// window, turn each sprite to face along its mirrored velocity, and
    /// request a despawn for every ball that has left the play area.
    pub fn update(projectiles: &mut Vec<Projectile>) -> (despawns: Vec<DespawnEntity>)
        ensures
            final(projectiles)@ == spec_lifecycle(old(projectiles)@),
            final(projectiles)@.len() == old(projectiles)@.len(),
            forall|i: int| 0 <= i < old(projectiles)@.len()
                ==> final(projectiles)@[i] == spec_lifecycle_ball(old(projectiles)@[i]),
            despawns@ == spec_bounds_despawns(old(projectiles)@),
    {
        let ghost orig = projectiles@;
        let mut despawns: Vec<DespawnEntity> = Vec::new();
        let mut k: usize = 0;
        proof {
            assert(orig.skip(0) =~= orig);
        }
        while k < projectiles.len()
            invariant
                k <= orig.len(),
                projectiles@.len() == orig.len(),
                forall|j: int| 0 <= j < k ==> projectiles@[j] == spec_lifecycle_ball(orig[j]),
                forall|j: int| k <= j < orig.len() ==> projectiles@[j] == orig[j],
                despawns@ + spec_bounds_despawns(orig.skip(k as int))
                    == spec_bounds_despawns(orig),
            decreases projectiles.len() - k,
        {
            proof {
                assert(orig.skip(k as int)[0] == orig[k as int]);
                assert(orig.skip(k as int).skip(1) =~= orig.skip(k as int + 1));
            }
            let p = projectiles[k];
            let p2 = Projectile {
                ball: SlimeBall { health: p.ball.health, invincible: false },
                facing: p.vel.mirrored_x(),
                ..p
            };
            projectiles.set(k, p2);
            if out_of_play(p.pos) {
                despawns.push(DespawnEntity(p.id));
            }
            proof {
                assert(despawns@ + spec_bounds_despawns(orig.skip(k as int + 1))
                    =~= spec_bounds_despawns(orig));
            }
            k = k + 1;
        }
        proof {
            assert(orig.skip(orig.len() as int) =~= Seq::<Projectile>::empty());
            assert(despawns@ =~= spec_bounds_despawns(orig));
            assert(projectiles@ =~= spec_lifecycle(orig));
        }
        despawns
    }
}

impl SlimeBall {
    /// Process this tick's contact-begin notifications: apply damage, emit
    /// `PlayerDamaged` for hits on the player, and request a despawn for
    /// every ball whose health is exhausted.
    pub fn on_contact_started(
        projectiles: &mut Vec<Projectile>,
        player_id: u64,
        player_pos: Vec2,
        contacts: &Vec<ContactEvent>,
    ) -> (r: (Vec<PlayerDamaged>, Vec<DespawnEntity>))
        ensures
            ({
                let t = spec_on_contacts_started(old(projectiles)@, player_id, player_pos,
                    contacts@);
                final(projectiles)@ == t.0 && r.0@ == t.1 && r.1@ == t.2
            }),
    {
        let ghost t = spec_on_contacts_started(projectiles@, player_id, player_pos, contacts@);
        let mut damaged: Vec<PlayerDamaged> = Vec::new();
        let mut despawns: Vec<DespawnEntity> = Vec::new();
        let mut k: usize = 0;
        proof {
            assert(contacts@.skip(0) =~= contacts@);
        }
        while k < contacts.len()
            invariant
                k <= contacts.len(),
                ({
                    let rem = spec_on_contacts_started(projectiles@, player_id, player_pos,
                        contacts@.skip(k as int));
                    t.0 == rem.0 && t.1 == damaged@ + rem.1 && t.2 == despawns@ + rem.2
                }),
            decreases contacts.len() - k,
        {
            proof {
                assert(contacts@.skip(k as int)[0] == contacts@[k as int]);
                assert(contacts@.skip(k as int).skip(1) =~= contacts@.skip(k as int + 1));
            }
            match contacts[k] {
                ContactEvent::Started(a, b) => {
                    let ghost step = spec_started_step(projectiles@, player_id, player_pos, a, b);
                    let hit = match find_ball(projectiles, a) {
                        Some(i) => Some((i, b)),
                        None => match find_ball(projectiles, b) {
                            Some(i) => Some((i, a)),
                            None => None,
                        },
                    };
                    match hit {
                        None => {},
                        Some((i, other)) => {
                            let p = projectiles[i];
                            if !p.ball.invincible {
                                let d = if other == player_id {
                                    PLAYER_HIT_DAMAGE
                                } else {
                                    OTHER_HIT_DAMAGE
                                };
                                let h2 = take_damage(p.ball.health, d);
                                let p2 = Projectile {
                                    ball: SlimeBall { health: h2, invincible: p.ball.invincible },
                                    ..p
                                };
                                projectiles.set(i, p2);
                                if other == player_id {
                                    damaged.push(PlayerDamaged {
                                        pos: player_pos,
                                        vel: p.vel,
                                        slime_ball_health: h2,
                                        angle_milli: p.angle_milli,
                                    });
                                }
                                if h2 <= 0 {
                                    despawns.push(DespawnEntity(p.id));
                                }
                            }
                        },
                    }
                    proof {
                        assert(projectiles@ == step.0);
                    }
                },
                ContactEvent::Stopped(_, _) => {},
            }
            proof {
                let rem_after = spec_on_contacts_started(projectiles@, player_id, player_pos,
                    contacts@.skip(k as int + 1));
                assert(t.1 =~= damaged@ + rem_after.1);
                assert(t.2 =~= despawns@ + rem_after.2);
            }
            k = k + 1;
        }
        proof {
            assert(contacts@.skip(contacts.len() as int) =~= Seq::<ContactEvent>::empty());
            assert(t.1 =~= damaged@);
            assert(t.2 =~= despawns@);
        }
        (damaged, despawns)
    }

    /// Process this tick's contact-end notifications: restore each struck
    /// ball's solver group so it collides with everything again.
    pub fn on_contact_stopped(
        projectiles: &mut Vec<Projectile>,
        contacts: &Vec<ContactEvent>,
    ) -> (restored: Vec<u64>)
        ensures
            ({
                let t = spec_on_contacts_stopped(old(projectiles)@, contacts@);
                final(projectiles)@ == t.0 && restored@ == t.1
            }),
    {
        let ghost t = spec_on_contacts_stopped(projectiles@, contacts@);
        let mut restored: Vec<u64> = Vec::new();
        let mut k: usize = 0;
        proof {
            assert(contacts@.skip(0) =~= contacts@);
        }
        while k < contacts.len()
            invariant
                k <= contacts.len(),
                ({
                    let rem = spec_on_contacts_stopped(projectiles@, contacts@.skip(k as int));
                    t.0 == rem.0 && t.1 == restored@ + rem.1
                }),
            decreases contacts.len() - k,
        {
            proof {
                assert(contacts@.skip(k as int)[0] == contacts@[k as int]);
                assert(contacts@.skip(k as int).skip(1) =~= contacts@.skip(k as int + 1));
            }
            match contacts[k] {
                ContactEvent::Stopped(a, b) => {
                    let hit = match find_ball(projectiles, a) {
                        Some(i) => Some(i),
                        None => find_ball(projectiles, b),
                    };
                    match hit {
                        None => {},
                        Some(i) => {
                            let p = projectiles[i];
                            let p2 = Projectile { groups: projectile_free_groups(), ..p };
                            projectiles.set(i, p2);
                            restored.push(p.id);
                        },
                    }
                },
                ContactEvent::Started(_, _) => {},
            }
            proof {
                let rem_after = spec_on_contacts_stopped(projectiles@,
                    contacts@.skip(k as int + 1));
                assert(t.1 =~= restored@ + rem_after.1);
            }
            k = k + 1;
        }
        proof {
            assert(contacts@.skip(contacts.len() as int) =~= Seq::<ContactEvent>::empty());
            assert(t.1 =~= restored@);
        }
        restored
    }
}

} // verus!
