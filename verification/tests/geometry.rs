use slime_arena::geom::{int_sqrt, Vec2};
use slime_arena::layers::{debris_groups, projectile_free_groups, projectile_spawn_groups,
    terrain_groups, win_ray_groups, Layer, LayerSet};
use slime_arena::player_damaged::debris_variant;
use slime_arena::slime_ball::out_of_play;

#[test]
fn integer_square_roots_are_exact() {
    assert_eq!(int_sqrt(0), 0);
    assert_eq!(int_sqrt(1), 1);
    assert_eq!(int_sqrt(3), 1);
    assert_eq!(int_sqrt(4), 2);
    assert_eq!(int_sqrt(999_999), 999);
    assert_eq!(int_sqrt(1_000_000), 1000);
    assert_eq!(int_sqrt(u64::MAX), 4_294_967_295);
}

#[test]
fn magnitudes_and_units() {
    let v = Vec2 { x: 3000, y: 4000 };
    assert_eq!(v.magnitude(), 5000);
    assert_eq!(v.unit_milli(), Vec2 { x: 600, y: 800 });
    let z = Vec2 { x: 0, y: 0 };
    assert_eq!(z.magnitude(), 0);
    assert_eq!(z.unit_milli(), Vec2 { x: 0, y: 0 });
    let n = Vec2 { x: 0, y: -1000 };
    assert_eq!(n.unit_milli(), Vec2 { x: 0, y: -1000 });
}

#[test]
fn vector_arithmetic_saturates_at_the_rim() {
    let a = Vec2 { x: i32::MAX, y: 5 };
    let b = Vec2 { x: 1, y: 7 };
    assert_eq!(a.plus(b), Vec2 { x: i32::MAX, y: 12 });
    assert_eq!(Vec2 { x: i32::MIN, y: 0 }.negated(), Vec2 { x: i32::MAX, y: 0 });
    assert_eq!(Vec2 { x: 2, y: -3 }.scaled(300), Vec2 { x: 600, y: -900 });
}

#[test]
fn play_area_boundary_is_exact() {
    // the arena half-width is 2048/90 units: 22.7555... units
    assert!(!out_of_play(Vec2 { x: 22755, y: 0 }));
    assert!(out_of_play(Vec2 { x: 22756, y: 0 }));
    assert!(!out_of_play(Vec2 { x: 0, y: 0 }));
    assert!(out_of_play(Vec2 { x: 16200, y: 16200 }));
}

#[test]
fn debris_variants_cover_the_sprite_set() {
    // non-positive hashes all pick the first sprite
    assert_eq!(debris_variant(Vec2 { x: 0, y: 0 }), 0);
    assert_eq!(debris_variant(Vec2 { x: 0, y: 1000 }), 0);
    // (5000 * 1008 - 0) / 1000 = 5040, and 5040 mod 6 = 0
    assert_eq!(debris_variant(Vec2 { x: 5000, y: 0 }), 0);
    // (1001 * 1008) / 1000 = 1009, and 1009 mod 6 = 1, and so on
    assert_eq!(debris_variant(Vec2 { x: 1001, y: 0 }), 1);
    assert_eq!(debris_variant(Vec2 { x: 2002, y: 0 }), 2);
    assert_eq!(debris_variant(Vec2 { x: 3003, y: 0 }), 3);
}

#[test]
fn spawn_fence_keeps_fresh_balls_off_the_terrain() {
    let walls = terrain_groups();
    assert!(!projectile_spawn_groups().interacts(walls));
    assert!(projectile_free_groups().interacts(walls));
}

#[test]
fn debris_is_fenced_from_other_debris() {
    let fragment = debris_groups();
    // a fragment rests on terrain but never interacts with another
    // fragment, the player or a projectile
    assert!(fragment.interacts(terrain_groups()));
    assert!(!fragment.interacts(fragment));
    assert!(!fragment.interacts(projectile_free_groups()));
}

#[test]
fn walls_are_invisible_to_the_win_ray() {
    assert!(!win_ray_groups().interacts(terrain_groups()));
}

#[test]
fn win_ray_selects_debris_alone() {
    let ray = win_ray_groups();
    assert_eq!(ray.filter, LayerSet::only(Layer::Debris));
    assert!(ray.filter.has(Layer::Debris));
    assert!(!ray.filter.has(Layer::Terrain));
    assert!(!ray.filter.has(Layer::Player));
    assert!(!ray.filter.has(Layer::Projectile));
    assert!(debris_groups().memberships.has(Layer::Debris));
}
