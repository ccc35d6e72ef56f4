use slime_arena::body_part::{DebrisBody, RayHit};
use slime_arena::events::ContactEvent;
use slime_arena::game::{Game, Phase};
use slime_arena::geom::Vec2;
use slime_arena::layers::{projectile_free_groups, projectile_spawn_groups};
use slime_arena::player_damaged::split_decision;
use slime_arena::slime_ball::{Projectile, SlimeBall};
use slime_arena::world::{BodySync, TickInput, World};

fn base_input() -> TickInput {
    TickInput {
        pressed: false,
        debug_pressed: false,
        click: None,
        sync: Vec::new(),
        player_pos: Vec2 { x: 0, y: -10500 },
        player_vel: Vec2 { x: 0, y: 0 },
        contacts: Vec::new(),
        ray_hit: None,
        anim_finished: false,
        drift_milli: 0,
    }
}

fn ball(id: u64, health: i32, pos: Vec2) -> Projectile {
    Projectile {
        id,
        ball: SlimeBall { health, invincible: false },
        pos,
        vel: Vec2 { x: 0, y: -100 },
        facing: Vec2 { x: 0, y: 1000 },
        groups: projectile_free_groups(),
        angle_milli: 0,
    }
}

#[test]
fn splitting_threshold_scenarios() {
    // player speed 5 units, angle a half of a half-turn, health 50:
    // split power 0.25, children of health 12 (12.5 truncated)
    assert_eq!(split_decision(500, 5000, 50), Some(12));
    // player speed 1 unit, angle a quarter of a half-turn, health 20:
    // split power about 0.025, new health half a point: no split
    assert_eq!(split_decision(250, 1000, 20), None);
}

#[test]
fn splitting_threshold_is_strict() {
    // the product lands exactly on the threshold: new health 10 is not
    // greater than 10, so no split
    assert_eq!(split_decision(1000, 1000, 100), None);
    // one more point of health tips it over; 10.1 truncates to 10
    assert_eq!(split_decision(1000, 1000, 101), Some(10));
    // negative health never splits
    assert_eq!(split_decision(1000, 1000, -100), None);
}

#[test]
fn player_hit_damages_by_25_and_emits_event() {
    let mut w = World::new(1);
    w.game = Game { phase: Phase::Main };
    w.projectiles.push(ball(10, 100, Vec2 { x: 0, y: 0 }));
    w.next_id = 11;

    let mut input = base_input();
    input.contacts = vec![ContactEvent::Started(1, 10)];
    let out = w.tick(&input);
    assert_eq!(out.damaged.len(), 1);
    assert_eq!(out.damaged[0].slime_ball_health, 75);
    assert_eq!(out.damaged[0].pos, Vec2 { x: 0, y: -10500 });
    assert_eq!(w.projectiles.len(), 1);
    assert_eq!(w.projectiles[0].ball.health, 75);
    assert_eq!(w.score.0, 1);
    assert_eq!(out.new_debris.len(), 1);
    // the cursor disarms on damage
    assert_eq!(out.cursor, Some(false));
}

#[test]
fn wall_hit_damages_by_15_and_stays_quiet() {
    let mut w = World::new(1);
    w.game = Game { phase: Phase::Main };
    w.projectiles.push(ball(10, 100, Vec2 { x: 0, y: 0 }));
    w.next_id = 11;

    let mut input = base_input();
    // body 99 is no projectile and not the player: a wall
    input.contacts = vec![ContactEvent::Started(10, 99)];
    let out = w.tick(&input);
    assert_eq!(out.damaged.len(), 0);
    assert_eq!(w.projectiles[0].ball.health, 85);
    assert_eq!(w.score.0, 0);
}

#[test]
fn invincible_ball_shrugs_off_the_spawn_tick_contact() {
    // a freshly spawned ball is invincible for its spawn tick; the next
    // tick's lifecycle pass makes it vulnerable before contacts resolve
    let mut w = World::new(1);
    w.game = Game { phase: Phase::Main };
    w.monster.phase = slime_arena::monster::Phase::Shoot;
    let mut input = base_input();
    input.anim_finished = true;
    let out = w.tick(&input);
    assert_eq!(out.spawned.len(), 1);
    let spawned = out.spawned[0];
    assert!(spawned.ball.invincible);
    assert_eq!(spawned.ball.health, 100);
    assert_eq!(spawned.pos, Vec2 { x: 0, y: 15360 });
    assert_eq!(spawned.vel, Vec2 { x: 0, y: -100 });
    assert_eq!(spawned.groups, projectile_spawn_groups());

    // next tick: the window closes even without any contact
    w.tick(&base_input());
    assert_eq!(w.projectiles.len(), 1);
    assert!(!w.projectiles[0].ball.invincible);
}

#[test]
fn invincible_ball_ignores_contact_damage() {
    // the resolver itself skips a ball whose grace window is open:
    // no damage, no event, no despawn
    let mut balls = vec![Projectile {
        ball: SlimeBall { health: 10, invincible: true },
        ..ball(10, 10, Vec2 { x: 0, y: 0 })
    }];
    let contacts = vec![ContactEvent::Started(1, 10)];
    let (damaged, despawns) = slime_arena::slime_ball::SlimeBall::on_contact_started(
        &mut balls,
        1,
        Vec2 { x: 0, y: -10500 },
        &contacts,
    );
    assert!(damaged.is_empty());
    assert!(despawns.is_empty());
    assert_eq!(balls[0].ball.health, 10);
}

#[test]
fn exhausted_ball_despawns_and_round_ends() {
    let mut w = World::new(1);
    w.game = Game { phase: Phase::Main };
    w.projectiles.push(ball(10, 10, Vec2 { x: 0, y: 0 }));
    w.next_id = 11;

    let mut input = base_input();
    input.contacts = vec![ContactEvent::Started(10, 99)];
    let out = w.tick(&input);
    // 10 - 15 leaves the ball below zero: despawned, arena empty
    assert!(out.removed_this_tick);
    assert_eq!(w.projectiles.len(), 0);
    assert!(matches!(w.game.phase, Phase::TransDead));

    // the next tick moves through TransDead into Dead, never skipping
    let out = w.tick(&base_input());
    assert!(matches!(out.phase_event, Phase::TransDead));
    assert!(matches!(w.game.phase, Phase::Dead));
}

#[test]
fn empty_arena_without_removal_never_ends_the_round() {
    let mut w = World::new(1);
    w.game = Game { phase: Phase::Main };
    for _ in 0..4 {
        let out = w.tick(&base_input());
        assert!(!out.removed_this_tick);
        assert!(matches!(w.game.phase, Phase::Main));
    }
}

#[test]
fn out_of_play_ball_is_removed() {
    let mut w = World::new(1);
    w.game = Game { phase: Phase::Intro };
    // beyond the arena half-width of about 22.756 units
    w.projectiles.push(ball(10, 100, Vec2 { x: 30000, y: 0 }));
    w.next_id = 11;
    let out = w.tick(&base_input());
    assert!(out.removed_this_tick);
    assert_eq!(w.projectiles.len(), 0);
    assert!(matches!(w.game.phase, Phase::TransDead));
}

#[test]
fn score_counts_each_damage_event_once() {
    let mut w = World::new(1);
    w.game = Game { phase: Phase::Main };
    w.projectiles.push(ball(10, 100, Vec2 { x: 0, y: 0 }));
    w.projectiles.push(ball(11, 100, Vec2 { x: 2000, y: 0 }));
    w.projectiles.push(ball(12, 100, Vec2 { x: 4000, y: 0 }));
    w.next_id = 13;

    let mut input = base_input();
    input.contacts = vec![
        ContactEvent::Started(1, 10),
        ContactEvent::Started(11, 1),
        ContactEvent::Started(1, 12),
    ];
    let out = w.tick(&input);
    assert_eq!(out.damaged.len(), 3);
    assert_eq!(w.score.0, 3);

    // a tick without damage leaves the score alone
    w.tick(&base_input());
    assert_eq!(w.score.0, 3);
}

#[test]
fn energetic_deflection_spawns_two_children() {
    let mut w = World::new(1);
    w.game = Game { phase: Phase::Main };
    let mut b = ball(10, 100, Vec2 { x: 0, y: 0 });
    b.vel = Vec2 { x: 0, y: -1000 };
    b.angle_milli = 500;
    w.projectiles.push(b);
    w.next_id = 11;

    let mut input = base_input();
    // the player moves at five units while the ball falls at one:
    // split power 0.25 of the remaining health 75 gives 18 twice
    input.player_vel = Vec2 { x: 5000, y: 0 };
    input.contacts = vec![ContactEvent::Started(1, 10)];
    let out = w.tick(&input);
    assert_eq!(out.damaged.len(), 1);
    assert_eq!(out.spawned.len(), 2);
    assert_eq!(out.spawned[0].ball.health, 18);
    assert_eq!(out.spawned[1].ball.health, 18);
    // the children fly back along the negated hit velocity, two units
    // behind the impact point
    assert_eq!(out.spawned[0].vel, Vec2 { x: 0, y: 1000 });
    assert_eq!(out.spawned[0].pos, Vec2 { x: 0, y: -10500 + 2000 });
    assert!(out.spawned[0].ball.invincible);
    // parent and both children live on
    assert_eq!(w.projectiles.len(), 3);
}

#[test]
fn win_ray_on_resting_debris_wins_the_match() {
    let mut w = World::new(1);
    w.game = Game { phase: Phase::TransMain2 };
    w.win_check_armed = true;
    w.debris.push(DebrisBody {
        id: 40,
        pos: Vec2 { x: 0, y: 0 },
        vel: Vec2 { x: 0, y: 0 },
        variant: 0,
    });
    let mut input = base_input();
    input.ray_hit = Some(RayHit { body_id: 40, speed_milli: 50 });
    let out = w.tick(&input);
    assert!(out.won);
    assert!(matches!(w.game.phase, Phase::TransEnd));
}

#[test]
fn win_ray_on_moving_debris_wins_nothing() {
    let mut w = World::new(1);
    w.game = Game { phase: Phase::TransMain2 };
    w.win_check_armed = true;
    w.debris.push(DebrisBody {
        id: 40,
        pos: Vec2 { x: 0, y: 0 },
        vel: Vec2 { x: 1000, y: 0 },
        variant: 0,
    });
    let mut input = base_input();
    // the same scene, but the fragment still moves at a unit per tick
    input.ray_hit = Some(RayHit { body_id: 40, speed_milli: 1000 });
    let out = w.tick(&input);
    assert!(!out.won);
    assert!(matches!(w.game.phase, Phase::Main));
}

#[test]
fn ray_without_an_armed_check_wins_nothing() {
    // the same resting fragment, but no TransMain event asked for a cast
    let mut w = World::new(1);
    w.game = Game { phase: Phase::Main };
    w.debris.push(DebrisBody {
        id: 40,
        pos: Vec2 { x: 0, y: 0 },
        vel: Vec2 { x: 0, y: 0 },
        variant: 0,
    });
    let mut input = base_input();
    input.ray_hit = Some(RayHit { body_id: 40, speed_milli: 0 });
    let out = w.tick(&input);
    assert!(!out.won);
    assert!(matches!(w.game.phase, Phase::Main));
}

#[test]
fn win_ray_through_empty_air_wins_nothing() {
    let mut w = World::new(1);
    w.game = Game { phase: Phase::TransMain2 };
    w.win_check_armed = true;
    let out = w.tick(&base_input());
    assert!(!out.won);
    assert!(matches!(w.game.phase, Phase::Main));
}

#[test]
fn contact_end_restores_solver_groups() {
    let mut w = World::new(1);
    w.game = Game { phase: Phase::Main };
    let mut b = ball(10, 100, Vec2 { x: 0, y: 0 });
    b.groups = projectile_spawn_groups();
    w.projectiles.push(b);
    w.next_id = 11;

    let mut input = base_input();
    input.contacts = vec![ContactEvent::Stopped(10, 99)];
    let out = w.tick(&input);
    assert_eq!(out.restored, vec![10]);
    assert_eq!(w.projectiles[0].groups, projectile_free_groups());
}

#[test]
fn physics_sync_updates_position_and_velocity() {
    let mut w = World::new(1);
    w.game = Game { phase: Phase::Main };
    w.projectiles.push(ball(10, 100, Vec2 { x: 0, y: 0 }));
    w.next_id = 11;

    let mut input = base_input();
    input.sync = vec![BodySync {
        id: 10,
        pos: Vec2 { x: 500, y: 600 },
        vel: Vec2 { x: -700, y: 800 },
        angle_milli: 250,
    }];
    w.tick(&input);
    assert_eq!(w.projectiles[0].pos, Vec2 { x: 500, y: 600 });
    assert_eq!(w.projectiles[0].vel, Vec2 { x: -700, y: 800 });
    assert_eq!(w.projectiles[0].angle_milli, 250);
    // the facing pass mirrors the velocity across the vertical axis
    assert_eq!(w.projectiles[0].facing, Vec2 { x: 700, y: 800 });
}

#[test]
fn click_of_an_armed_player_jumps_and_disarms() {
    let mut w = World::new(1);
    w.game = Game { phase: Phase::Main };
    w.player.ready = true;
    w.cursor_armed = true;
    let mut input = base_input();
    input.click = Some(Vec2 { x: 1000, y: -10000 });
    let out = w.tick(&input);
    // impulse = (click - player position) * 300
    assert_eq!(out.impulse, Some(Vec2 { x: 300000, y: 150000 }));
    assert_eq!(out.cursor, Some(false));
    assert!(!w.player.ready);
    assert!(!w.cursor_armed);
}

#[test]
fn click_of_a_disarmed_player_moves_nothing() {
    let mut w = World::new(1);
    w.game = Game { phase: Phase::Main };
    let mut input = base_input();
    input.click = Some(Vec2 { x: 1000, y: -10000 });
    let out = w.tick(&input);
    assert_eq!(out.impulse, None);
    assert_eq!(out.cursor, Some(false));
}
