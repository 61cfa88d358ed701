//! Registry replace correctness and active-subset consistency.
use shooter_core::entity::{Entity, EntityName, Tag};
use shooter_core::geom::vec2i;
use shooter_core::world::World;

#[test]
fn replace_overwrites_and_lookup_sees_the_new_value() {
    let mut world = World::new();
    let e = Entity::new(EntityName::Enemy, Tag::Enemy, &mut world);
    let id = e.id;
    assert_eq!(id, 0);
    // mutate a local copy and write it back
    let mut copy = e;
    copy.entity_params.health = 42;
    copy.transform.set_position(vec2i(7_000, 9_000));
    world.set_entity(&copy);
    let found = world.get_entity_by_id(id).unwrap();
    assert_eq!(found.entity_params.health, 42);
    assert_eq!(found.transform.position, vec2i(7_000, 9_000));
    // the values from before the replace are gone
    assert!(found.transform.position != e.transform.position);
}

#[test]
fn lookup_miss_returns_none() {
    let mut world = World::new();
    let _ = Entity::new(EntityName::Enemy, Tag::Enemy, &mut world);
    assert!(world.get_entity_by_id(5).is_none());
    assert!(world.get_entity_by_tag(Tag::Player).is_none());
}

#[test]
fn tag_lookup_returns_first_match() {
    let mut world = World::new();
    let _a = Entity::new(EntityName::Enemy, Tag::Enemy, &mut world);
    let _b = Entity::new(EntityName::Enemy, Tag::Enemy, &mut world);
    let found = world.get_entity_by_tag(Tag::Enemy).unwrap();
    assert_eq!(found.id, 0);
}

#[test]
fn refreshed_active_subset_is_exactly_the_active_entities() {
    let mut world = World::new();
    let a = Entity::new(EntityName::Enemy, Tag::Enemy, &mut world);
    let b = Entity::new(EntityName::Enemy, Tag::Enemy, &mut world);
    let c = Entity::new(EntityName::Wall, Tag::Wall, &mut world);
    // deactivate b through a sequence of replace calls, including a
    // redundant one
    let mut bb = b;
    bb.is_active = false;
    world.set_entity(&bb);
    world.set_entity(&bb);
    let mut cc = c;
    cc.entity_params.health = 9;
    world.set_entity(&cc);
    world.refresh_active_subset();
    let actives = world.get_actives();
    assert_eq!(actives.len(), 2);
    assert_eq!(actives[0].id, a.id);
    assert_eq!(actives[1].id, c.id);
    assert_eq!(actives[1].entity_params.health, 9);
    // reactivate b: the next refresh picks it up again, in registry order
    bb.is_active = true;
    world.set_entity(&bb);
    world.refresh_active_subset();
    let actives = world.get_actives();
    assert_eq!(actives.len(), 3);
    assert_eq!(actives[1].id, b.id);
}

#[test]
fn replace_keeps_cache_membership_by_identity() {
    let mut world = World::new();
    let a = Entity::new(EntityName::Enemy, Tag::Enemy, &mut world);
    world.refresh_active_subset();
    assert_eq!(world.get_actives().len(), 1);
    // a redundant replace of an active entity must not duplicate it
    let mut aa = a;
    aa.transform.set_position(vec2i(1_000, 2_000));
    world.set_entity(&aa);
    world.set_entity(&aa);
    assert_eq!(world.get_actives().len(), 1);
    assert_eq!(world.get_actives()[0].transform.position, vec2i(1_000, 2_000));
    // deactivating removes it from the cache without a refresh
    aa.is_active = false;
    world.set_entity(&aa);
    assert_eq!(world.get_actives().len(), 0);
}

#[test]
fn score_counter_adds_and_resets() {
    let mut world = World::new();
    world.add_scorepoints(30);
    world.add_scorepoints(12);
    assert_eq!(world.get_collected_scorepoints(), 42);
    world.add_scorepoints(-2);
    assert_eq!(world.get_collected_scorepoints(), 40);
    world.reset_scorepoints();
    assert_eq!(world.get_collected_scorepoints(), 0);
    world.add_scorepoints(i64::MAX);
    world.add_scorepoints(i64::MAX);
    assert_eq!(world.get_collected_scorepoints(), i64::MAX);
}
