//! Pool slot determinism, exhaustion and release behaviour.
use shooter_core::entity::{Entity, EntityName, Tag};
use shooter_core::geom::{vec2i, Transform, Vec2i};
use shooter_core::missle::{Missle, MisslePool};
use shooter_core::world::World;
use shooter_core::PoolError;

fn weapon_entity(world: &mut World) -> Entity {
    let mut e = Entity::new(EntityName::PlayerWeapon, Tag::PlayerWeapon, world);
    e.entity_params.firespeed = 300;
    e.entity_params.damage = 4;
    e.transform.set_position(vec2i(500_000, 500_000));
    world.set_entity(&e);
    e
}

#[test]
fn acquire_takes_next_slot_in_order() {
    let mut world = World::new();
    let weapon = weapon_entity(&mut world);
    let mut pool = MisslePool::new();
    pool.create_pool(4, &mut world);
    // slots 0..2 active: the next acquire must return slot 2
    let a = pool
        .fire_missle(weapon, vec2i(1000, 0), vec2i(0, 0), &mut world)
        .unwrap();
    let b = pool
        .fire_missle(weapon, vec2i(1000, 0), vec2i(0, 0), &mut world)
        .unwrap();
    let c = pool
        .fire_missle(weapon, vec2i(1000, 0), vec2i(0, 0), &mut world)
        .unwrap();
    assert_eq!(a, 0);
    assert_eq!(b, 1);
    assert_eq!(c, 2);
}

#[test]
fn acquire_reuses_lowest_free_slot() {
    // slots {0,2} active out of three: the next acquire returns slot 1
    let mut world = World::new();
    let mut weapon = weapon_entity(&mut world);
    weapon.transform.set_position(vec2i(500_000, 20_000));
    world.set_entity(&weapon);
    let mut pool = MisslePool::new();
    pool.create_pool(3, &mut world);
    // slot 1's missile flies straight up and leaves the window on the
    // next tick; slots 0 and 2 cruise along inside it
    assert_eq!(
        pool.fire_missle(weapon, vec2i(1000, 0), vec2i(0, 0), &mut world),
        Ok(0)
    );
    assert_eq!(
        pool.fire_missle(weapon, vec2i(0, -1000), vec2i(0, 0), &mut world),
        Ok(1)
    );
    assert_eq!(
        pool.fire_missle(weapon, vec2i(1000, 0), vec2i(0, 0), &mut world),
        Ok(2)
    );
    pool.update(&mut world, 100);
    assert!(pool.get_slot(0).entity.is_active);
    assert!(!pool.get_slot(1).entity.is_active);
    assert!(pool.get_slot(2).entity.is_active);
    // the lowest free index is reused
    assert_eq!(
        pool.fire_missle(weapon, vec2i(1000, 0), vec2i(0, 0), &mut world),
        Ok(1)
    );
}

#[test]
fn exhausted_pool_reports_and_keeps_slots() {
    let mut world = World::new();
    let weapon = weapon_entity(&mut world);
    let mut pool = MisslePool::new();
    pool.create_pool(2, &mut world);
    assert!(pool
        .fire_missle(weapon, vec2i(1000, 0), vec2i(0, 0), &mut world)
        .is_ok());
    assert!(pool
        .fire_missle(weapon, vec2i(0, 1000), vec2i(0, 0), &mut world)
        .is_ok());
    let before0 = pool.get_slot(0);
    let before1 = pool.get_slot(1);
    let r = pool.fire_missle(weapon, vec2i(1000, 0), vec2i(0, 0), &mut world);
    assert_eq!(r, Err(PoolError::Exhausted));
    assert_eq!(pool.get_slot(0), before0);
    assert_eq!(pool.get_slot(1), before1);
}

#[test]
fn release_is_idempotent_and_keeps_identity() {
    let mut world = World::new();
    let weapon = weapon_entity(&mut world);
    let mut m = Missle::new(7, &mut world);
    let id = m.entity.id;
    m.setup_missle(weapon, vec2i(1000, 0), vec2i(0, 0));
    m.fire();
    assert!(m.entity.is_active);
    m.reset_missle();
    let once = m;
    assert!(!m.entity.is_active);
    assert_eq!(m.entity.id, id);
    assert_eq!(m.entity.transform, Transform::zero());
    m.reset_missle();
    assert_eq!(m, once);
    assert_eq!(m.entity.id, id);
    assert!(!m.entity.is_active);
}

#[test]
fn five_shots_into_four_slots_signal_exhaustion_once() {
    // end-to-end: a pool of capacity four takes four missiles; the fifth
    // request is dropped with the explicit exhaustion signal
    let mut world = World::new();
    let weapon = weapon_entity(&mut world);
    let mut pool = MisslePool::new();
    pool.create_pool(4, &mut world);
    let mut fired = 0;
    let mut exhausted = 0;
    let mut shot: usize = 0;
    while shot < 5 {
        match pool.fire_missle(weapon, vec2i(1000, 0), vec2i(0, 0), &mut world) {
            Ok(_) => fired += 1,
            Err(PoolError::Exhausted) => exhausted += 1,
        }
        shot += 1;
    }
    assert_eq!(fired, 4);
    assert_eq!(exhausted, 1);
    let mut active = 0;
    let mut i: usize = 0;
    while i < pool.len() {
        if pool.get_slot(i).entity.is_active {
            active += 1;
        }
        i += 1;
    }
    assert_eq!(active, 4);
    // the slots hold the weapon's stat snapshot and the missile tag
    assert_eq!(pool.get_slot(0).entity.tag, Tag::PlayerMissle);
    assert_eq!(pool.get_slot(0).entity.entity_params.firespeed, 300);
    let expected_centre = Vec2i {
        x: 500_000,
        y: 500_000,
    };
    assert_eq!(pool.get_slot(0).entity.transform.position, expected_centre);
}
