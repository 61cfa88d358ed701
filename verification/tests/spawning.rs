//! Spawner quota, enemy destruction awards, and despawn-window culling.
use shooter_core::enemy_spawner::EnemySpawner;
use shooter_core::enemypool::EnemyPool;
use shooter_core::enemytypes::EnemyType;
use shooter_core::entity::{Entity, EntityName, Tag};
use shooter_core::geom::vec2i;
use shooter_core::world::World;

#[test]
fn spawner_issues_exactly_its_quota() {
    let mut world = World::new();
    let mut pool = EnemyPool::new();
    pool.create_pool(8, &mut world);
    let mut spawner = EnemySpawner::create_spawner(3, 0, &mut world);
    let mut transform = spawner.entity.transform;
    transform.set_position(vec2i(500_000, 500_000));
    spawner.set_transform(&transform);
    let mut issued = 0;
    let mut tick = 0;
    while tick < 200 {
        if spawner.update(&mut pool, &mut world, 100) {
            issued += 1;
        }
        tick += 1;
    }
    assert_eq!(issued, 3);
    assert_eq!(spawner.spawned, 3);
    // much more time changes nothing: the quota is spent for good
    let mut tick = 0;
    while tick < 100 {
        assert!(!spawner.update(&mut pool, &mut world, 1000));
        tick += 1;
    }
    assert_eq!(spawner.spawned, 3);
    // exactly three pool slots were taken
    let mut active = 0;
    let mut i: usize = 0;
    while i < pool.len() {
        if pool.get_slot(i).entity.is_active {
            active += 1;
        }
        i += 1;
    }
    assert_eq!(active, 3);
}

#[test]
fn destroyed_enemy_awards_its_points() {
    let mut world = World::new();
    let mut player = Entity::new(EntityName::Player, Tag::Player, &mut world);
    player.transform.set_position(vec2i(100_000, 0));
    world.set_entity(&player);
    let mut pool = EnemyPool::new();
    pool.create_pool(2, &mut world);
    let slot = pool
        .spawn_enemy(vec2i(500_000, 500_000), &EnemyType::Default, &mut world)
        .unwrap();
    assert_eq!(slot, 0);
    // drive its health to zero and run the frame pass
    let mut e = pool.get_slot(0);
    e.entity.entity_params.health = 0;
    // the update pass on the destroyed enemy awards the default variant's
    // twenty points and releases the slot
    e.update(&mut world, 16);
    assert!(!e.entity.is_active);
    assert_eq!(world.get_collected_scorepoints(), 20);
}

#[test]
fn culled_enemy_awards_nothing() {
    let mut world = World::new();
    let mut player = Entity::new(EntityName::Player, Tag::Player, &mut world);
    player.transform.set_position(vec2i(100_000, 0));
    world.set_entity(&player);
    let mut pool = EnemyPool::new();
    pool.create_pool(2, &mut world);
    // spawn far beyond the right edge of the generous despawn window
    let slot = pool
        .spawn_enemy(vec2i(5_000_000, 500_000), &EnemyType::Default, &mut world)
        .unwrap();
    assert_eq!(slot, 0);
    assert!(pool.get_slot(0).entity.is_active);
    assert!(pool.get_slot(0).entity.entity_params.health > 0);
    pool.update(&mut world, 16);
    assert!(!pool.get_slot(0).entity.is_active);
    assert_eq!(world.get_collected_scorepoints(), 0);
}

#[test]
fn enemy_pool_reports_exhaustion() {
    let mut world = World::new();
    let mut pool = EnemyPool::new();
    pool.create_pool(1, &mut world);
    assert!(pool
        .spawn_enemy(vec2i(500_000, 500_000), &EnemyType::Default, &mut world)
        .is_ok());
    let r = pool.spawn_enemy(vec2i(500_000, 500_000), &EnemyType::Default, &mut world);
    assert_eq!(r, Err(shooter_core::PoolError::Exhausted));
}

#[test]
fn armed_variants_register_their_weapon() {
    let mut world = World::new();
    let mut pool = EnemyPool::new();
    pool.create_pool(2, &mut world);
    let before = world.entity_count();
    pool.spawn_enemy(vec2i(500_000, 500_000), &EnemyType::Gunner, &mut world)
        .unwrap();
    // the gunner brings one extra entity: its weapon
    assert_eq!(world.entity_count(), before + 1);
    let e = pool.get_slot(0);
    assert!(e.variant.weapon.is_some());
    assert_eq!(e.variant.points, 10);
    // the default variant brings none
    pool.spawn_enemy(vec2i(500_000, 500_000), &EnemyType::Default, &mut world)
        .unwrap();
    assert_eq!(world.entity_count(), before + 1);
    assert!(pool.get_slot(1).variant.weapon.is_none());
}

#[test]
fn spawn_interval_shortens_with_difficulty_to_a_floor() {
    let mut world = World::new();
    let s0 = EnemySpawner::create_spawner(1, 0, &mut world);
    assert_eq!(s0.spawn_duration, 3500);
    world.set_difficulty(5);
    let s5 = EnemySpawner::create_spawner(1, 0, &mut world);
    assert_eq!(s5.spawn_duration, 2500);
    world.set_difficulty(100);
    let s100 = EnemySpawner::create_spawner(1, 0, &mut world);
    assert_eq!(s100.spawn_duration, 800);
}
