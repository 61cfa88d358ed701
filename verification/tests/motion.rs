//! Missile flight, window despawn, and enemy steering.
use shooter_core::entity::{Entity, EntityName, Tag};
use shooter_core::enemy::Enemy;
use shooter_core::geom::{isqrt64, normalize, scaled_step, vec2i, Transform};
use shooter_core::missle::Missle;
use shooter_core::world::World;
use shooter_core::SUBUNIT;

fn weapon_at(world: &mut World, x: i64, y: i64, firespeed: i64) -> Entity {
    let mut e = Entity::new(EntityName::PlayerWeapon, Tag::PlayerWeapon, world);
    e.entity_params.firespeed = firespeed;
    e.transform.set_position(vec2i(x, y));
    world.set_entity(&e);
    e
}

#[test]
fn missile_advances_by_direction_times_firespeed_times_dt() {
    // direction (1,0), fire speed 300 units per second, dt 0.1 s:
    // the centre moves 30 units right and none vertically
    let mut world = World::new();
    let weapon = weapon_at(&mut world, 500_000, 500_000, 300);
    let mut m = Missle::new(0, &mut world);
    m.setup_missle(weapon, vec2i(1000, 0), vec2i(0, 0));
    m.fire();
    m.update(&world, 100);
    assert_eq!(m.entity.transform.position, vec2i(530_000, 500_000));
    assert!(m.entity.is_active);
    // a second tick adds the same displacement again
    m.update(&world, 100);
    assert_eq!(m.entity.transform.position, vec2i(560_000, 500_000));
}

#[test]
fn missile_on_a_diagonal_moves_both_axes() {
    let mut world = World::new();
    let weapon = weapon_at(&mut world, 500_000, 500_000, 300);
    let mut m = Missle::new(0, &mut world);
    let dir = normalize(vec2i(3, 4));
    assert_eq!(dir, vec2i(600, 800));
    m.setup_missle(weapon, dir, vec2i(0, 0));
    m.fire();
    m.update(&world, 100);
    // 0.6 * 300 * 0.1 = 18 units; 0.8 * 300 * 0.1 = 24 units
    assert_eq!(m.entity.transform.position, vec2i(518_000, 524_000));
}

#[test]
fn inactive_missile_does_not_move() {
    let mut world = World::new();
    let weapon = weapon_at(&mut world, 500_000, 500_000, 300);
    let mut m = Missle::new(0, &mut world);
    m.reset_missle();
    m.setup_missle(weapon, vec2i(1000, 0), vec2i(0, 0));
    assert!(!m.entity.is_active);
    let before = m;
    m.update(&world, 100);
    assert_eq!(m, before);
}

#[test]
fn missile_leaving_the_window_is_released_that_tick() {
    // the missile starts twenty units below the top edge, flying up at
    // 300 units per second: after one tenth of a second its rectangle
    // crosses the border and the slot resets to the zero sentinel
    let mut world = World::new();
    let weapon = weapon_at(&mut world, 500_000, 20_000, 300);
    let mut m = Missle::new(0, &mut world);
    m.setup_missle(weapon, vec2i(0, -1000), vec2i(0, 0));
    m.fire();
    m.update(&world, 100);
    assert!(!m.entity.is_active);
    assert_eq!(m.entity.transform, Transform::zero());
    assert_eq!(m.dir, vec2i(0, 0));
    assert!(m.weapon.is_none());
}

#[test]
fn enemy_steers_straight_toward_the_player() {
    // enemy at (100,100), player at (100,0), speed 50, dt 0.016 s:
    // the enemy moves 0.8 units along (0,-1), to y = 99.2
    let mut world = World::new();
    let mut player = Entity::new(EntityName::Player, Tag::Player, &mut world);
    player.transform.set_position(vec2i(100 * SUBUNIT, 0));
    world.set_entity(&player);
    let mut enemy = Enemy::new(0, &mut world);
    enemy.entity.transform.set_position(vec2i(100 * SUBUNIT, 100 * SUBUNIT));
    enemy.entity.entity_params.speed = 50;
    enemy.entity.entity_params.health = 5;
    world.set_entity(&enemy.entity);
    enemy.update(&mut world, 16);
    assert_eq!(enemy.entity.transform.position, vec2i(100_000, 99_200));
    assert_eq!(world.get_collected_scorepoints(), 0);
}

#[test]
fn enemy_holds_still_without_a_player() {
    let mut world = World::new();
    let mut enemy = Enemy::new(0, &mut world);
    enemy.entity.transform.set_position(vec2i(100_000, 100_000));
    enemy.entity.entity_params.speed = 50;
    enemy.entity.entity_params.health = 5;
    world.set_entity(&enemy.entity);
    enemy.update(&mut world, 16);
    assert_eq!(enemy.entity.transform.position, vec2i(100_000, 100_000));
}

#[test]
fn integer_square_root_rounds_down() {
    assert_eq!(isqrt64(0), 0);
    assert_eq!(isqrt64(1), 1);
    assert_eq!(isqrt64(2), 1);
    assert_eq!(isqrt64(99), 9);
    assert_eq!(isqrt64(100), 10);
    assert_eq!(isqrt64(10_000_000_000), 100_000);
    assert_eq!(isqrt64(u64::MAX), 4_294_967_295);
}

#[test]
fn normalization_is_exact_on_the_axes() {
    assert_eq!(normalize(vec2i(250, 0)), vec2i(1000, 0));
    assert_eq!(normalize(vec2i(-9, 0)), vec2i(-1000, 0));
    assert_eq!(normalize(vec2i(0, 77)), vec2i(0, 1000));
    assert_eq!(normalize(vec2i(0, -1)), vec2i(0, -1000));
    // the classic 3-4-5 triangle normalizes exactly
    assert_eq!(normalize(vec2i(30_000, 40_000)), vec2i(600, 800));
}

#[test]
fn motion_step_rounds_toward_zero() {
    assert_eq!(scaled_step(1000, 300, 100), 30_000);
    assert_eq!(scaled_step(-1000, 300, 100), -30_000);
    assert_eq!(scaled_step(333, 1, 1), 0);
    assert_eq!(scaled_step(-333, 1, 1), 0);
    assert_eq!(scaled_step(500, 3, 1), 1);
}
