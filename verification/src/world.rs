//! The world and the tick: one ordered pass over every system.
//!
//! One tick runs the systems in a fixed topological order, so every
//! producer runs strictly before its consumers and event queues live for
//! exactly one tick:
//!
//! 1. the physics provider's state report is applied (positions,
//!    velocities, angles);
//! 2. the projectile lifecycle pass closes invincibility windows, turns
//!    sprites, and requests despawns for balls out of play;
//! 3. the win detector resolves the ray that last tick's `TransMain`
//!    event asked for;
//! 4. the match controller emits the phase event and advances (a press on
//!    the egg screen terminates the simulation here);
//! 5. the contact resolver turns contact notifications into damage,
//!    `PlayerDamaged` events and despawn requests;
//! 6. the player-damage handler spawns debris, decides splits, and the
//!    score counts the events;
//! 7. cursor arming resolves, last write wins, and a click of an armed
//!    player becomes a jump impulse;
//! 8. the monster advances on a finished animation and may fire;
//! 9. the split and fire requests resolve into new projectiles;
//! 10. all despawn requests are applied;
//! 11. round-over detection runs, seeing the post-despawn population.

use vstd::prelude::*;
use crate::body_part::{BodyPart, DebrisBody, RayHit, spec_win};
use crate::events::{ContactEvent, DespawnEntity, PlayerDamaged, TargetStatus,
    spec_latest_status};
use crate::game::{Game, OverlayCmd, Phase, StepOut, spec_next_phase, spec_round_over,
    spec_step_overlay, spec_step_terminates};
use crate::geom::{spec_minus, spec_scaled, Vec2};
use crate::monster::{Monster, MonsterAnim, spec_monster_step};
use crate::player::Player;
use crate::player_damaged::spec_handle_damage;
use crate::score::{Score, spec_bumped_score};
use crate::slime_ball::{opt_seq, spec_apply_despawns, spec_bounds_despawns, spec_find_ball,
    spec_lifecycle, spec_on_contacts_started, spec_on_contacts_stopped, spec_resolved_spawns,
    Projectile, SlimeBall, SpawnSlimeBall};

verus! {

/// The per-tick state report for one body, from the physics provider.
#[derive(Clone, Copy, Debug, PartialEq, Eq, Structural)]
pub struct BodySync {
    pub id: u64,
    pub pos: Vec2,
    pub vel: Vec2,
    /// The angle between the player's velocity and this body's velocity,
    /// in thousandths of a half-turn.
    pub angle_milli: u32,
}

/// Everything the outside world hands the core for one tick.
#[derive(Clone, Debug)]
pub struct TickInput {
    /// Any key or button was pressed this tick.
    pub pressed: bool,
    /// The debug input that forces the easter egg.
    pub debug_pressed: bool,
    /// A click this tick, as a position in milli-units.
    pub click: Option<Vec2>,
    /// State report for the live projectiles.
    pub sync: Vec<BodySync>,
    /// The player's position this tick.
    pub player_pos: Vec2,
    /// The player's velocity this tick.
    pub player_vel: Vec2,
    /// The contact notifications produced since last tick.
    pub contacts: Vec<ContactEvent>,
    /// What the win ray hit, when one was cast for this tick.
    pub ray_hit: Option<RayHit>,
    /// The monster's current animation finished.
    pub anim_finished: bool,
    /// Horizontal drift for default-velocity spawns, derived from the
    /// elapsed time by the caller.
    pub drift_milli: i32,
}

/// The ghost image of a [`TickInput`].
pub struct TickInView {
    pub pressed: bool,
    pub debug_pressed: bool,
    pub click: Option<Vec2>,
    pub sync: Seq<BodySync>,
    pub player_pos: Vec2,
    pub player_vel: Vec2,
    pub contacts: Seq<ContactEvent>,
    pub ray_hit: Option<RayHit>,
    pub anim_finished: bool,
    pub drift_milli: i32,
}

impl View for TickInput {
    type V = TickInView;

    open spec fn view(&self) -> TickInView {
        TickInView {
            pressed: self.pressed,
            debug_pressed: self.debug_pressed,
            click: self.click,
            sync: self.sync@,
            player_pos: self.player_pos,
            player_vel: self.player_vel,
            contacts: self.contacts@,
            ray_hit: self.ray_hit,
            anim_finished: self.anim_finished,
            drift_milli: self.drift_milli,
        }
    }
}

/// Everything one tick tells the outside world to do.
#[derive(Clone, Debug)]
pub struct TickOutput {
    /// The phase event of this tick.
    pub phase_event: Phase,
    /// The easter egg fired: stop the simulation; nothing else holds.
    pub terminated: bool,
    /// Overlay change.
    pub overlay: Option<OverlayCmd>,
    /// The win detector emitted `Won` this tick.
    pub won: bool,
    /// Cast the win ray before the next tick and report it back.
    pub cast_win_ray: bool,
    /// Animation to hand the monster.
    pub monster_anim: Option<MonsterAnim>,
    /// Cursor arming change, if any status event fired.
    pub cursor: Option<bool>,
    /// Move the player's body back to its resting pose.
    pub player_reset: bool,
    /// Show the player's slimed animation.
    pub player_slimed: bool,
    /// Impulse to apply to the player's body.
    pub impulse: Option<Vec2>,
    /// Projectiles whose solver groups were restored.
    pub restored: Vec<u64>,
    /// The `PlayerDamaged` events of this tick.
    pub damaged: Vec<PlayerDamaged>,
    /// New projectiles: create their bodies.
    pub spawned: Vec<Projectile>,
    /// New debris fragments: create their bodies.
    pub new_debris: Vec<DebrisBody>,
    /// Bodies to remove.
    pub despawned: Vec<DespawnEntity>,
    /// At least one projectile was removed this tick.
    pub removed_this_tick: bool,
    /// The final count for the end screen, released by `TransEnd`.
    pub end_score: Option<u32>,
}

/// The ghost image of a [`TickOutput`].
pub struct TickEffects {
    pub phase_event: Phase,
    pub terminated: bool,
    pub overlay: Option<OverlayCmd>,
    pub won: bool,
    pub cast_win_ray: bool,
    pub monster_anim: Option<MonsterAnim>,
    pub cursor: Option<bool>,
    pub player_reset: bool,
    pub player_slimed: bool,
    pub impulse: Option<Vec2>,
    pub restored: Seq<u64>,
    pub damaged: Seq<PlayerDamaged>,
    pub spawned: Seq<Projectile>,
    pub new_debris: Seq<DebrisBody>,
    pub despawned: Seq<DespawnEntity>,
    pub removed_this_tick: bool,
    pub end_score: Option<u32>,
}

impl View for TickOutput {
    type V = TickEffects;

    open spec fn view(&self) -> TickEffects {
        TickEffects {
            phase_event: self.phase_event,
            terminated: self.terminated,
            overlay: self.overlay,
            won: self.won,
            cast_win_ray: self.cast_win_ray,
            monster_anim: self.monster_anim,
            cursor: self.cursor,
            player_reset: self.player_reset,
            player_slimed: self.player_slimed,
            impulse: self.impulse,
            restored: self.restored@,
            damaged: self.damaged@,
            spawned: self.spawned@,
            new_debris: self.new_debris@,
            despawned: self.despawned@,
            removed_this_tick: self.removed_this_tick,
            end_score: self.end_score,
        }
    }
}

/// The whole match state the core owns.
#[derive(Clone, Debug)]
pub struct World {
    pub game: Game,
    pub monster: Monster,
    pub player: Player,
    pub projectiles: Vec<Projectile>,
    pub debris: Vec<DebrisBody>,
    pub score: Score,
    pub cursor_armed: bool,
    /// The next fresh body identifier.
    pub next_id: u64,
    /// Last tick's phase event was `TransMain`: the win ray is due.
    pub win_check_armed: bool,
}

/// The ghost image of a [`World`].
pub struct WorldView {
    pub game: Game,
    pub monster: Monster,
    pub player: Player,
    pub projectiles: Seq<Projectile>,
    pub debris: Seq<DebrisBody>,
    pub score: Score,
    pub cursor_armed: bool,
    pub next_id: u64,
    pub win_check_armed: bool,
}

impl View for World {
    type V = WorldView;

    open spec fn view(&self) -> WorldView {
        WorldView {
            game: self.game,
            monster: self.monster,
            player: self.player,
            projectiles: self.projectiles@,
            debris: self.debris@,
            score: self.score,
            cursor_armed: self.cursor_armed,
            next_id: self.next_id,
            win_check_armed: self.win_check_armed,
        }
    }
}

/// One body's state report applied: the first projectile wearing the
/// identifier takes the reported position, velocity and angle.
pub open spec fn spec_sync_step(ps: Seq<Projectile>, s: BodySync) -> Seq<Projectile> {
    match spec_find_ball(ps, s.id) {
        None => ps,
        Some(i) => ps.update(i, Projectile {
            pos: s.pos,
            vel: s.vel,
            angle_milli: s.angle_milli,
            ..ps[i]
        }),
    }
}

/// A whole state report applied, in order.
pub open spec fn spec_apply_sync(ps: Seq<Projectile>, sync: Seq<BodySync>) -> Seq<Projectile>
    decreases sync.len(),
{
    if sync.len() == 0 {
        ps
    } else {
        spec_apply_sync(spec_sync_step(ps, sync[0]), sync.skip(1))
    }
}

/// The tick's cursor-status queue, in producer order: the controller's
/// arming on `TransMain`, then a click's disarm, then one disarm per
/// damage event.
pub open spec fn spec_tick_statuses(armed: bool, clicked: bool, n_damaged: int)
    -> Seq<TargetStatus> {
    (if armed { seq![TargetStatus(true)] } else { Seq::<TargetStatus>::empty() })
        + (if clicked { seq![TargetStatus(false)] } else { Seq::<TargetStatus>::empty() })
        + Seq::new(if n_damaged >= 0 { n_damaged as nat } else { 0nat },
            |i: int| TargetStatus(false))
}

/// The full transition of one tick: the world afterwards and everything
/// the tick tells the outside world.  [`World::tick`] is its executable
/// form.
pub open spec fn spec_tick(v: WorldView, i: TickInView) -> (WorldView, TickEffects) {
    let ps0 = spec_apply_sync(v.projectiles, i.sync);
    let player1 = Player { pos: i.player_pos, vel: i.player_vel, ..v.player };
    let ps1 = spec_lifecycle(ps0);
    let bounds_despawns = spec_bounds_despawns(ps0);
    let won = spec_win(v.win_check_armed, i.ray_hit, v.debris);
    let emitted = v.game.phase;
    if spec_step_terminates(emitted, i.pressed) {
        (
            WorldView { projectiles: ps1, player: player1, ..v },
            TickEffects {
                phase_event: emitted,
                terminated: true,
                overlay: None,
                won,
                cast_win_ray: false,
                monster_anim: None,
                cursor: None,
                player_reset: false,
                player_slimed: false,
                impulse: None,
                restored: Seq::empty(),
                damaged: Seq::empty(),
                spawned: Seq::empty(),
                new_debris: Seq::empty(),
                despawned: Seq::empty(),
                removed_this_tick: false,
                end_score: None,
            },
        )
    } else {
        let phase2 = spec_next_phase(emitted, i.pressed, i.debug_pressed, won);
        let overlay = spec_step_overlay(emitted, i.pressed, i.debug_pressed);
        let monster_shoot = emitted == Phase::TransIntro || emitted == Phase::TransMain;
        let target_armed = emitted == Phase::TransMain;
        let reset = emitted == Phase::TransDead;
        let monster1 = if monster_shoot {
            Monster { phase: crate::monster::Phase::TransShoot }
        } else {
            v.monster
        };
        let player2 = if reset {
            Player {
                pos: Vec2 { x: player1.pos.x, y: crate::player::PLAYER_REST_Y },
                vel: Vec2 { x: 0, y: 0 },
                ..player1
            }
        } else {
            player1
        };
        let stopped = spec_on_contacts_stopped(ps1, i.contacts);
        let started = spec_on_contacts_started(stopped.0, v.player.id, player2.pos, i.contacts);
        let ps2 = started.0;
        let damaged = started.1;
        let contact_despawns = started.2;
        let dmg = spec_handle_damage(damaged, player2.vel, v.next_id);
        let new_debris = dmg.0;
        let split_spawns = dmg.1;
        let score1 = Score(spec_bumped_score(v.score.0 as int, damaged.len() as int) as u32);
        let debris1 = v.debris + new_debris;
        let next_id1 = (v.next_id + new_debris.len()) as u64;
        let statuses = spec_tick_statuses(target_armed, i.click is Some, damaged.len() as int);
        let cursor_change = spec_latest_status(statuses);
        let cursor2 = match cursor_change {
            Some(b) => b,
            None => v.cursor_armed,
        };
        let ready2 = match cursor_change {
            Some(b) => b,
            None => player2.ready,
        };
        let impulse = match i.click {
            Some(wp) => if player2.ready {
                Some(spec_scaled(spec_minus(wp, player2.pos), 300))
            } else {
                None
            },
            None => None,
        };
        let mstep = spec_monster_step(monster1, i.anim_finished);
        let monster2 = mstep.0;
        let requests = split_spawns + opt_seq(mstep.2);
        let spawned = spec_resolved_spawns(requests, next_id1, i.drift_milli);
        let ps3 = ps2 + spawned;
        let next_id2 = (next_id1 + requests.len()) as u64;
        let all_despawns = bounds_despawns + contact_despawns;
        let ps4 = spec_apply_despawns(ps3, all_despawns);
        let removed = ps4.len() < ps3.len();
        let phase3 = spec_round_over(phase2, removed, ps4.len() > 0);
        (
            WorldView {
                game: Game { phase: phase3 },
                monster: monster2,
                player: Player { ready: ready2, ..player2 },
                projectiles: ps4,
                debris: debris1,
                score: score1,
                cursor_armed: cursor2,
                next_id: next_id2,
                win_check_armed: emitted == Phase::TransMain,
            },
            TickEffects {
                phase_event: emitted,
                terminated: false,
                overlay,
                won,
                cast_win_ray: emitted == Phase::TransMain,
                monster_anim: mstep.1,
                cursor: cursor_change,
                player_reset: reset,
                player_slimed: damaged.len() > 0,
                impulse,
                restored: stopped.1,
                damaged,
                spawned,
                new_debris,
                despawned: all_despawns,
                removed_this_tick: removed,
                end_score: if emitted == Phase::TransEnd { Some(score1.0) } else { None },
            },
        )
    }
}

/// Copy a vector of plain values.
fn duplicated<T: Copy>(v: &Vec<T>) -> (r: Vec<T>)
    ensures
        r@ == v@,
{
    let mut r: Vec<T> = Vec::new();
    let mut k: usize = 0;
    while k < v.len()
        invariant
            k <= v@.len(),
            r@ == v@.subrange(0, k as int),
        decreases v.len() - k,
    {
        r.push(v[k]);
        proof {
            assert(r@ =~= v@.subrange(0, k as int + 1));
        }
        k = k + 1;
    }
    proof {
        assert(v@.subrange(0, v@.len() as int) =~= v@);
    }
    r
}

/// Apply the provider's state report to the projectile set.
fn apply_sync(projectiles: &mut Vec<Projectile>, sync: &Vec<BodySync>)
    ensures
        final(projectiles)@ == spec_apply_sync(old(projectiles)@, sync@),
{
    let mut k: usize = 0;
    proof {
        assert(sync@.skip(0) =~= sync@);
    }
    while k < sync.len()
        invariant
            k <= sync@.len(),
            spec_apply_sync(projectiles@, sync@.skip(k as int))
                == spec_apply_sync(old(projectiles)@, sync@),
        decreases sync.len() - k,
    {
        proof {
            assert(sync@.skip(k as int)[0] == sync@[k as int]);
            assert(sync@.skip(k as int).skip(1) =~= sync@.skip(k as int + 1));
        }
        let s = sync[k];
        match crate::slime_ball::find_ball(projectiles, s.id) {
            None => {},
            Some(i) => {
                let p = projectiles[i];
                projectiles.set(i, Projectile {
                    pos: s.pos,
                    vel: s.vel,
                    angle_milli: s.angle_milli,
                    ..p
                });
            },
        }
        k = k + 1;
    }
    proof {
        assert(sync@.skip(sync@.len() as int) =~= Seq::<BodySync>::empty());
    }
}

impl World {
    /// A fresh match: start screen, idle monster, resting player, no
    /// projectiles, no debris, score zero, cursor disarmed.
    pub fn new(player_id: u64) -> (w: World)
        requires
            player_id < u64::MAX,
        ensures
            w@.game.phase == Phase::Start,
            w@.monster.phase == crate::monster::Phase::Idle,
            w@.player == (Player {
                id: player_id,
                pos: Vec2 { x: 0, y: crate::player::PLAYER_REST_Y },
                vel: Vec2 { x: 0, y: 0 },
                ready: false,
            }),
            w@.projectiles == (Seq::<Projectile>::empty()),
            w@.debris == (Seq::<DebrisBody>::empty()),
            w@.score.0 == 0,
            !w@.cursor_armed,
            w@.next_id == player_id + 1,
            !w@.win_check_armed,
    {
        World {
            game: Game::new(),
            monster: Monster::spawn(),
            player: Player::spawn(player_id),
            projectiles: Vec::new(),
            debris: Vec::new(),
            score: Score::spawn(),
            cursor_armed: false,
            next_id: player_id + 1,
            win_check_armed: false,
        }
    }

    /// Stages one to four of a tick: the provider's report, the
    /// lifecycle pass, win detection, the controller step, and the
    /// controller's immediate effects on monster and player.  Returns the
    /// lifecycle despawn requests, the win decision and the controller's
    /// step record.
    fn tick_open(&mut self, input: &TickInput) -> (r: (Vec<DespawnEntity>, bool, StepOut))
        ensures
            ({
                let i = input@;
                let g0 = old(self)@;
                let ps0 = spec_apply_sync(g0.projectiles, i.sync);
                let ps1 = spec_lifecycle(ps0);
                let won = spec_win(g0.win_check_armed, i.ray_hit, g0.debris);
                let emitted = g0.game.phase;
                let term = spec_step_terminates(emitted, i.pressed);
                let player1 = Player { pos: i.player_pos, vel: i.player_vel, ..g0.player };
                &&& r.0@ == spec_bounds_despawns(ps0)
                &&& r.1 == won
                &&& r.2.emitted == emitted
                &&& r.2.terminate == term
                &&& final(self).projectiles@ == ps1
                &&& final(self).debris@ == g0.debris
                &&& final(self).score == g0.score
                &&& final(self).cursor_armed == g0.cursor_armed
                &&& final(self).next_id == g0.next_id
                &&& final(self).win_check_armed == g0.win_check_armed
                &&& (term ==> final(self).game == g0.game
                    && final(self).monster == g0.monster
                    && final(self).player == player1)
                &&& (!term ==> {
                    let monster_shoot = emitted == Phase::TransIntro
                        || emitted == Phase::TransMain;
                    let reset = emitted == Phase::TransDead;
                    &&& final(self).game.phase == spec_next_phase(emitted, i.pressed,
                        i.debug_pressed, won)
                    &&& final(self).monster == (if monster_shoot {
                        Monster { phase: crate::monster::Phase::TransShoot }
                    } else {
                        g0.monster
                    })
                    &&& final(self).player == (if reset {
                        Player {
                            pos: Vec2 { x: player1.pos.x, y: crate::player::PLAYER_REST_Y },
                            vel: Vec2 { x: 0, y: 0 },
                            ..player1
                        }
                    } else {
                        player1
                    })
                    &&& r.2.overlay == spec_step_overlay(emitted, i.pressed, i.debug_pressed)
                    &&& r.2.monster_shoot == (emitted == Phase::TransIntro
                        || emitted == Phase::TransMain)
                    &&& r.2.target_armed == (emitted == Phase::TransMain)
                    &&& r.2.reset_player == (emitted == Phase::TransDead)
                    &&& r.2.arm_win_check == (emitted == Phase::TransMain)
                })
            }),
    {
        apply_sync(&mut self.projectiles, &input.sync);
        self.player.pos = input.player_pos;
        self.player.vel = input.player_vel;
        let bounds_despawns = SlimeBall::update(&mut self.projectiles);
        let won = BodyPart::win_check(self.win_check_armed, input.ray_hit, &self.debris);
        let step = self.game.update(input.pressed, input.debug_pressed, won);
        if !step.terminate {
            if step.monster_shoot {
                self.monster.begin_shoot();
            }
            self.player.on_phase(step.emitted);
        }
        (bounds_despawns, won, step)
    }

    /// Stages five and six of a tick: the contact resolver, the damage
    /// handler and the score.  Returns the restored solver groups, the
    /// damage events, the contact despawn requests, the cursor disarms,
    /// the new debris and the split spawn requests.
    fn tick_combat(&mut self, input: &TickInput) -> (r: (Vec<u64>, Vec<PlayerDamaged>,
        Vec<DespawnEntity>, Vec<TargetStatus>, Vec<DebrisBody>, Vec<SpawnSlimeBall>))
        requires
            old(self).next_id + input.contacts@.len() <= u64::MAX,
        ensures
            ({
                let i = input@;
                let g0 = old(self)@;
                let stopped = spec_on_contacts_stopped(g0.projectiles, i.contacts);
                let started = spec_on_contacts_started(stopped.0, g0.player.id,
                    g0.player.pos, i.contacts);
                let dmg = spec_handle_damage(started.1, g0.player.vel, g0.next_id);
                &&& r.0@ == stopped.1
                &&& r.1@ == started.1
                &&& r.2@ == started.2
                &&& r.3@.len() == started.1.len()
                &&& (forall|j: int| 0 <= j < started.1.len()
                    ==> r.3@[j] == TargetStatus(false))
                &&& r.4@ == dmg.0
                &&& r.5@ == dmg.1
                &&& started.1.len() <= i.contacts.len()
                &&& dmg.1.len() <= 2 * started.1.len()
                &&& final(self).projectiles@ == started.0
                &&& final(self).debris@ == g0.debris + dmg.0
                &&& final(self).score.0 as int
                    == spec_bumped_score(g0.score.0 as int, started.1.len() as int)
                &&& final(self).next_id == g0.next_id + started.1.len()
                &&& final(self).game == g0.game
                &&& final(self).monster == g0.monster
                &&& final(self).player == g0.player
                &&& final(self).cursor_armed == g0.cursor_armed
                &&& final(self).win_check_armed == g0.win_check_armed
            }),
    {
        let ghost g0 = self@;
        let restored = SlimeBall::on_contact_stopped(&mut self.projectiles, &input.contacts);
        let (damaged, contact_despawns) = SlimeBall::on_contact_started(
            &mut self.projectiles, self.player.id, self.player.pos, &input.contacts);
        proof {
            crate::slime_ball::lemma_contacts_started_len(
                spec_on_contacts_stopped(g0.projectiles, input.contacts@).0,
                g0.player.id, g0.player.pos, input.contacts@);
            crate::player_damaged::lemma_handle_damage_bounds(damaged@, g0.player.vel,
                g0.next_id);
        }
        let (disarms, new_debris, split_spawns) = PlayerDamaged::handle_event(
            &damaged, self.player.vel, self.next_id);
        self.score.on_player_damaged(&damaged);
        let debris_copy = duplicated(&new_debris);
        let mut debris_take = new_debris;
        self.debris.append(&mut debris_take);
        self.next_id = self.next_id + damaged.len() as u64;
        (restored, damaged, contact_despawns, disarms, debris_copy, split_spawns)
    }

    /// Stages seven to eleven of a tick: cursor arming and the jump
    /// impulse, the monster, spawn resolution, despawn application, and
    /// round-over detection; assembles the tick's output.
    fn tick_close(
        &mut self,
        input: &TickInput,
        step: StepOut,
        won: bool,
        bounds_despawns: Vec<DespawnEntity>,
        restored: Vec<u64>,
        damaged: Vec<PlayerDamaged>,
        contact_despawns: Vec<DespawnEntity>,
        disarms: Vec<TargetStatus>,
        debris_copy: Vec<DebrisBody>,
        split_spawns: Vec<SpawnSlimeBall>,
    ) -> (out: TickOutput)
        requires
            old(self).next_id + split_spawns@.len() + 1 <= u64::MAX,
            disarms@.len() == damaged@.len(),
            forall|j: int| 0 <= j < disarms@.len() ==> disarms@[j] == TargetStatus(false),
            !step.terminate,
        ensures
            ({
                let i = input@;
                let g = old(self)@;
                let statuses = spec_tick_statuses(step.target_armed, i.click is Some,
                    damaged@.len() as int);
                let change = spec_latest_status(statuses);
                let cursor2 = match change { Some(b) => b, None => g.cursor_armed };
                let ready2 = match change { Some(b) => b, None => g.player.ready };
                let impulse = match i.click {
                    Some(wp) => if g.player.ready {
                        Some(spec_scaled(spec_minus(wp, g.player.pos), 300))
                    } else {
                        None
                    },
                    None => None,
                };
                let mstep = spec_monster_step(g.monster, i.anim_finished);
                let requests = split_spawns@ + opt_seq(mstep.2);
                let spawned = spec_resolved_spawns(requests, g.next_id, i.drift_milli);
                let ps3 = g.projectiles + spawned;
                let all_d = bounds_despawns@ + contact_despawns@;
                let ps4 = spec_apply_despawns(ps3, all_d);
                let removed = ps4.len() < ps3.len();
                let phase3 = spec_round_over(g.game.phase, removed, ps4.len() > 0);
                &&& final(self)@ == (WorldView {
                    game: Game { phase: phase3 },
                    monster: mstep.0,
                    player: Player { ready: ready2, ..g.player },
                    projectiles: ps4,
                    debris: g.debris,
                    score: g.score,
                    cursor_armed: cursor2,
                    next_id: (g.next_id + requests.len()) as u64,
                    win_check_armed: step.arm_win_check,
                })
                &&& out@ == (TickEffects {
                    phase_event: step.emitted,
                    terminated: false,
                    overlay: step.overlay,
                    won,
                    cast_win_ray: step.arm_win_check,
                    monster_anim: mstep.1,
                    cursor: change,
                    player_reset: step.reset_player,
                    player_slimed: damaged@.len() > 0,
                    impulse,
                    restored: restored@,
                    damaged: damaged@,
                    spawned,
                    new_debris: debris_copy@,
                    despawned: all_d,
                    removed_this_tick: removed,
                    end_score: if step.emitted == Phase::TransEnd {
                        Some(g.score.0)
                    } else {
                        None
                    },
                })
            }),
    {
        let ghost g = self@;
        // 7. cursor arming and the jump impulse
        let mut impulse: Option<Vec2> = None;
        let mut statuses: Vec<TargetStatus> = Vec::new();
        if step.target_armed {
            statuses.push(TargetStatus(true));
        }
        match input.click {
            Some(wp) => {
                let (imp, st) = crate::ready_to_jump::ReadyToJump::update(wp,
                    self.player.pos, self.player.ready);
                impulse = imp;
                statuses.push(st);
            },
            None => {},
        }
        let mut disarms_take = disarms;
        statuses.append(&mut disarms_take);
        proof {
            assert(statuses@ =~= spec_tick_statuses(step.target_armed, input.click is Some,
                damaged@.len() as int));
        }
        let cursor_change = TargetStatus::changed(&statuses);
        match cursor_change {
            Some(b) => {
                self.cursor_armed = b;
                self.player.ready = b;
            },
            None => {},
        }
        // 8. the monster
        let (monster_anim, fire) = self.monster.animation_finished(input.anim_finished);
        // 9. spawn resolution
        let ghost split_spawns_v = split_spawns@;
        let mut requests = split_spawns;
        match fire {
            Some(req) => requests.push(req),
            None => {},
        }
        proof {
            assert(requests@ =~= split_spawns_v + opt_seq(fire));
        }
        let spawned = SpawnSlimeBall::handle_event(&requests, self.next_id, input.drift_milli);
        let mut spawned_take = duplicated(&spawned);
        self.projectiles.append(&mut spawned_take);
        self.next_id = self.next_id + requests.len() as u64;
        // 10. despawn application
        let mut all_despawns = bounds_despawns;
        let mut contact_take = contact_despawns;
        all_despawns.append(&mut contact_take);
        let n_before = self.projectiles.len();
        DespawnEntity::handle_event(&mut self.projectiles, &all_despawns);
        let removed_this_tick = self.projectiles.len() < n_before;
        // 11. round-over detection
        let any_left = self.projectiles.len() > 0;
        self.game.detect_round_over(removed_this_tick, any_left);
        self.win_check_armed = step.arm_win_check;
        let end_score = self.score.on_end(step.emitted);
        TickOutput {
            phase_event: step.emitted,
            terminated: false,
            overlay: step.overlay,
            won,
            cast_win_ray: step.arm_win_check,
            monster_anim,
            cursor: cursor_change,
            player_reset: step.reset_player,
            player_slimed: damaged.len() > 0,
            impulse,
            restored,
            damaged,
            spawned,
            new_debris: debris_copy,
            despawned: all_despawns,
            removed_this_tick,
            end_score,
        }
    }

    /// Run one tick: apply the provider's report, run every system in
    /// order, and return what the outside world must do.  The behaviour
    /// is exactly [`spec_tick`].
    #[verifier::rlimit(100)]
    pub fn tick(&mut self, input: &TickInput) -> (out: TickOutput)
        requires
            old(self).next_id + 3 * input.contacts@.len() + 1 <= u64::MAX,
        ensures
            final(self)@ == spec_tick(old(self)@, input@).0,
            out@ == spec_tick(old(self)@, input@).1,
    {
        let ghost g0 = self@;
        let (bounds_despawns, won, step) = self.tick_open(input);
        if step.terminate {
            return TickOutput {
                phase_event: step.emitted,
                terminated: true,
                overlay: None,
                won,
                cast_win_ray: false,
                monster_anim: None,
                cursor: None,
                player_reset: false,
                player_slimed: false,
                impulse: None,
                restored: Vec::new(),
                damaged: Vec::new(),
                spawned: Vec::new(),
                new_debris: Vec::new(),
                despawned: Vec::new(),
                removed_this_tick: false,
                end_score: None,
            };
        }
        let (restored, damaged, contact_despawns, disarms, debris_copy, split_spawns) =
            self.tick_combat(input);
        let out = self.tick_close(input, step, won, bounds_despawns, restored, damaged,
            contact_despawns, disarms, debris_copy, split_spawns);
        proof {
            let i = input@;
            let ps0 = spec_apply_sync(g0.projectiles, i.sync);
            let player1 = Player { pos: i.player_pos, vel: i.player_vel, ..g0.player };
            let ps1 = spec_lifecycle(ps0);
            let bounds_d = spec_bounds_despawns(ps0);
            let won_s = spec_win(g0.win_check_armed, i.ray_hit, g0.debris);
            let emitted = g0.game.phase;
            let phase2 = spec_next_phase(emitted, i.pressed, i.debug_pressed, won_s);
            let overlay_s = spec_step_overlay(emitted, i.pressed, i.debug_pressed);
            let monster_shoot = emitted == Phase::TransIntro || emitted == Phase::TransMain;
            let target_armed_s = emitted == Phase::TransMain;
            let reset_s = emitted == Phase::TransDead;
            let monster1 = if monster_shoot {
                Monster { phase: crate::monster::Phase::TransShoot }
            } else {
                g0.monster
            };
            let player2 = if reset_s {
                Player {
                    pos: Vec2 { x: player1.pos.x, y: crate::player::PLAYER_REST_Y },
                    vel: Vec2 { x: 0, y: 0 },
                    ..player1
                }
            } else {
                player1
            };
            let stopped_s = spec_on_contacts_stopped(ps1, i.contacts);
            let started_s = spec_on_contacts_started(stopped_s.0, g0.player.id, player2.pos,
                i.contacts);
            let damaged_s = started_s.1;
            let dmg = spec_handle_damage(damaged_s, player2.vel, g0.next_id);
            crate::player_damaged::lemma_handle_damage_bounds(damaged_s, player2.vel,
                g0.next_id);
            let score1 = Score(spec_bumped_score(g0.score.0 as int, damaged_s.len() as int)
                as u32);
            let next_id1 = (g0.next_id + dmg.0.len()) as u64;
            let statuses_s = spec_tick_statuses(target_armed_s, i.click is Some,
                damaged_s.len() as int);
            let cursor_change_s = spec_latest_status(statuses_s);
            let cursor2 = match cursor_change_s { Some(b) => b, None => g0.cursor_armed };
            let ready2 = match cursor_change_s { Some(b) => b, None => player2.ready };
            let impulse_s = match i.click {
                Some(wp) => if player2.ready {
                    Some(spec_scaled(spec_minus(wp, player2.pos), 300))
                } else {
                    None
                },
                None => None,
            };
            let mstep = spec_monster_step(monster1, i.anim_finished);
            let requests_s = dmg.1 + opt_seq(mstep.2);
            let spawned_s = spec_resolved_spawns(requests_s, next_id1, i.drift_milli);
            let ps3 = started_s.0 + spawned_s;
            let next_id2 = (next_id1 + requests_s.len()) as u64;
            let all_d = bounds_d + started_s.2;
            let ps4 = spec_apply_despawns(ps3, all_d);
            let removed_s = ps4.len() < ps3.len();
            let phase3 = spec_round_over(phase2, removed_s, ps4.len() > 0);
            let wv = WorldView {
                game: Game { phase: phase3 },
                monster: mstep.0,
                player: Player { ready: ready2, ..player2 },
                projectiles: ps4,
                debris: g0.debris + dmg.0,
                score: score1,
                cursor_armed: cursor2,
                next_id: next_id2,
                win_check_armed: emitted == Phase::TransMain,
            };
            let eff = TickEffects {
                phase_event: emitted,
                terminated: false,
                overlay: overlay_s,
                won: won_s,
                cast_win_ray: emitted == Phase::TransMain,
                monster_anim: mstep.1,
                cursor: cursor_change_s,
                player_reset: reset_s,
                player_slimed: damaged_s.len() > 0,
                impulse: impulse_s,
                restored: stopped_s.1,
                damaged: damaged_s,
                spawned: spawned_s,
                new_debris: dmg.0,
                despawned: all_d,
                removed_this_tick: removed_s,
                end_score: if emitted == Phase::TransEnd { Some(score1.0) } else { None },
            };
            assert(spec_tick(g0, i) == (wv, eff));
            assert(self@ == wv);
            assert(out@ == eff);
        }
        out
    }
}

} // verus!
