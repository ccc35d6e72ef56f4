use slime_arena::game::{Game, OverlayCmd, OverlayKind, Phase};
use slime_arena::geom::Vec2;
use slime_arena::world::{TickInput, World};

fn base_input() -> TickInput {
    TickInput {
        pressed: false,
        debug_pressed: false,
        click: None,
        sync: Vec::new(),
        player_pos: Vec2 { x: 0, y: -10500 },
        player_vel: Vec2 { x: 0, y: 0 },
        contacts: Vec::new(),
        ray_hit: None,
        anim_finished: false,
        drift_milli: 0,
    }
}

#[test]
fn start_press_walks_into_intro() {
    let mut w = World::new(1);
    assert!(matches!(w.game.phase, Phase::Start));

    let mut input = base_input();
    input.pressed = true;
    let out = w.tick(&input);
    assert!(matches!(out.phase_event, Phase::Start));
    assert!(matches!(out.overlay, Some(OverlayCmd::Hide)));
    assert!(matches!(w.game.phase, Phase::TransIntro));

    let out = w.tick(&base_input());
    assert!(matches!(out.phase_event, Phase::TransIntro));
    assert!(matches!(w.game.phase, Phase::Intro));
    assert!(matches!(
        w.monster.phase,
        slime_arena::monster::Phase::TransShoot
    ));
}

#[test]
fn start_without_press_stays() {
    let mut w = World::new(1);
    for _ in 0..5 {
        let out = w.tick(&base_input());
        assert!(!out.terminated);
        assert!(matches!(w.game.phase, Phase::Start));
    }
}

#[test]
fn debug_input_forces_egg_and_press_terminates() {
    let mut w = World::new(1);
    let mut input = base_input();
    input.debug_pressed = true;
    let out = w.tick(&input);
    assert!(matches!(out.overlay, Some(OverlayCmd::Show(OverlayKind::Egg))));
    assert!(matches!(w.game.phase, Phase::Egg));

    let mut input = base_input();
    input.pressed = true;
    let out = w.tick(&input);
    assert!(out.terminated);
    assert!(matches!(w.game.phase, Phase::Egg));
}

#[test]
fn dead_press_reaches_trans_main_and_arms_cursor() {
    let mut w = World::new(1);
    w.game = Game { phase: Phase::Dead };
    let mut input = base_input();
    input.pressed = true;
    let out = w.tick(&input);
    assert!(matches!(w.game.phase, Phase::TransMain));
    assert!(matches!(out.overlay, Some(OverlayCmd::Hide)));

    // the TransMain tick arms the cursor and asks for the win ray
    let out = w.tick(&base_input());
    assert!(matches!(out.phase_event, Phase::TransMain));
    assert!(out.cast_win_ray);
    assert_eq!(out.cursor, Some(true));
    assert!(w.cursor_armed);
    assert!(w.player.ready);
    assert!(matches!(w.game.phase, Phase::TransMain2));

    // no ray result handed back: no win, the match goes on
    let out = w.tick(&base_input());
    assert!(matches!(out.phase_event, Phase::TransMain2));
    assert!(!out.won);
    assert!(matches!(w.game.phase, Phase::Main));
}

#[test]
fn trans_dead_shows_overlay_and_resets_player() {
    let mut w = World::new(1);
    w.game = Game { phase: Phase::TransDead };
    let mut input = base_input();
    input.player_pos = Vec2 { x: 3000, y: 9000 };
    input.player_vel = Vec2 { x: 500, y: 500 };
    let out = w.tick(&input);
    assert!(matches!(out.overlay, Some(OverlayCmd::Show(OverlayKind::YouWin))));
    assert!(out.player_reset);
    assert!(matches!(w.game.phase, Phase::Dead));
    assert_eq!(w.player.pos, Vec2 { x: 3000, y: -10500 });
    assert_eq!(w.player.vel, Vec2 { x: 0, y: 0 });
}

#[test]
fn trans_end_shows_overflow_and_releases_score() {
    let mut w = World::new(1);
    w.game = Game { phase: Phase::TransEnd };
    w.score = slime_arena::score::Score(7);
    let out = w.tick(&base_input());
    assert!(matches!(
        out.overlay,
        Some(OverlayCmd::Show(OverlayKind::MemoryOverflow))
    ));
    assert_eq!(out.end_score, Some(7));
    assert!(matches!(w.game.phase, Phase::End));
}
