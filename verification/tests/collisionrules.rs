//! The collision rule table and the geometric predicates.
use shooter_core::collision::{
    inside_windowborder, inside_windowborder_extended_sides, inside_windowview, resolve_deathzone,
    resolve_intersection, resolve_levelwalls, resolve_windowborder,
};
use shooter_core::enemy::Enemy;
use shooter_core::entity::{Entity, EntityName, Tag};
use shooter_core::geom::{vec2i, Rect};
use shooter_core::missle::Missle;
use shooter_core::renderer::{inside_screen, inside_visible_area, Viewspace};
use shooter_core::world::World;

fn entity_with_tag_at(world: &mut World, tag: Tag, x: i64, y: i64) -> Entity {
    let name = match tag {
        Tag::Enemy => EntityName::Enemy,
        Tag::Wall => EntityName::Wall,
        Tag::Player => EntityName::Player,
        _ => EntityName::Wall,
    };
    let mut e = Entity::new(name, tag, world);
    e.transform.set_position(vec2i(x, y));
    world.set_entity(&e);
    e
}

fn player_missile_at(world: &mut World, x: i64, y: i64) -> Missle {
    let mut weapon = Entity::new(EntityName::PlayerWeapon, Tag::PlayerWeapon, world);
    weapon.entity_params.firespeed = 300;
    weapon.transform.set_position(vec2i(x, y));
    world.set_entity(&weapon);
    let mut m = Missle::new(0, world);
    m.setup_missle(weapon, vec2i(1000, 0), vec2i(0, 0));
    m.fire();
    m
}

#[test]
fn player_missile_hits_enemy_one_hit_unit_and_dies() {
    let mut world = World::new();
    let mut m = player_missile_at(&mut world, 500_000, 500_000);
    let enemy_entity = entity_with_tag_at(&mut world, Tag::Enemy, 505_000, 500_000);
    // the missile side of the exchange: it deactivates
    m.on_collision(&enemy_entity);
    assert!(!m.entity.is_active);
    // the enemy side: exactly one hit-unit of health comes off
    let mut world2 = World::new();
    let mut enemy = Enemy::new(0, &mut world2);
    enemy.entity.transform.set_position(vec2i(505_000, 500_000));
    enemy.entity.entity_params.health = 5;
    enemy.entity.hit_feedback_timer = 0;
    let mut missile_entity = Entity::new(EntityName::Missle, Tag::PlayerMissle, &mut world2);
    missile_entity.transform.set_position(vec2i(500_000, 500_000));
    enemy.on_collision(&missile_entity);
    assert_eq!(enemy.entity.entity_params.health, 4);
    // while the hit-feedback gate is closed no second hit lands
    enemy.on_collision(&missile_entity);
    assert_eq!(enemy.entity.entity_params.health, 4);
}

#[test]
fn player_missile_dies_on_wall_without_damage() {
    let mut world = World::new();
    let mut m = player_missile_at(&mut world, 500_000, 500_000);
    let wall = entity_with_tag_at(&mut world, Tag::Wall, 505_000, 500_000);
    let wall_health_before = wall.entity_params.health;
    let missile_params_before = m.entity.entity_params;
    m.on_collision(&wall);
    assert!(!m.entity.is_active);
    // no health changed anywhere in the exchange
    assert_eq!(wall.entity_params.health, wall_health_before);
    assert_eq!(m.entity.entity_params, missile_params_before);
}

#[test]
fn missile_passes_non_colliding_pairs_through() {
    let mut world = World::new();
    let mut m = player_missile_at(&mut world, 500_000, 500_000);
    // a spawner tile is no missile target under the rule table
    let spawner = entity_with_tag_at(&mut world, Tag::Spawner, 505_000, 500_000);
    let before = m;
    m.on_collision(&spawner);
    assert_eq!(m, before);
    // and a distant enemy does not intersect at all
    let far = entity_with_tag_at(&mut world, Tag::Enemy, 900_000, 900_000);
    m.on_collision(&far);
    assert_eq!(m, before);
}

#[test]
fn enemy_missile_hits_player_not_enemy() {
    let mut world = World::new();
    let mut enemy_weapon = Entity::new(EntityName::GunnerWeapon, Tag::EnemyWeapon, &mut world);
    enemy_weapon.entity_params.firespeed = 300;
    enemy_weapon.transform.set_position(vec2i(500_000, 500_000));
    let mut m = Missle::new(0, &mut world);
    m.setup_missle(enemy_weapon, vec2i(1000, 0), vec2i(0, 0));
    m.fire();
    assert_eq!(m.entity.tag, Tag::EnemyMissle);
    let enemy = entity_with_tag_at(&mut world, Tag::Enemy, 505_000, 500_000);
    let before = m;
    m.on_collision(&enemy);
    assert_eq!(m, before);
    let player = entity_with_tag_at(&mut world, Tag::Player, 505_000, 500_000);
    m.on_collision(&player);
    assert!(!m.entity.is_active);
}

#[test]
fn intersection_is_inclusive_of_touching_edges() {
    let a = Rect::new(0, 0, 10, 10);
    let b = Rect::new(10, 0, 5, 5);
    let c = Rect::new(11, 0, 5, 5);
    assert!(resolve_intersection(a, b));
    assert!(!resolve_intersection(a, c));
    assert!(resolve_intersection(a, a));
}

#[test]
fn wall_list_blocking() {
    let r = Rect::new(0, 0, 10, 10);
    let walls = vec![Rect::new(100, 100, 5, 5), Rect::new(8, 8, 4, 4)];
    assert!(resolve_levelwalls(r, walls));
    let clear = vec![Rect::new(100, 100, 5, 5)];
    assert!(!resolve_levelwalls(r, clear));
    assert!(!resolve_levelwalls(r, Vec::new()));
}

#[test]
fn window_predicates_follow_the_scroll() {
    // the play window is 1920x1080 units; a rect at x = -5 units pokes out
    let out_left = Rect::new(-5_000, 10_000, 1_000, 1_000);
    assert!(resolve_windowborder(out_left, 0));
    // scrolled ahead by 10 units the same rect is still out
    assert!(resolve_windowborder(out_left, 10_000));
    let inside = Rect::new(500_000, 500_000, 1_000, 1_000);
    assert!(!resolve_windowborder(inside, 0));
    // but after scrolling far past it, it is behind the window
    assert!(resolve_windowborder(inside, 600_000));
    // the death zone allows a hundred units of slack
    assert!(!resolve_deathzone(Rect::new(-50_000, 10_000, 1_000, 1_000), 0));
    assert!(resolve_deathzone(Rect::new(-150_000, 10_000, 1_000, 1_000), 0));
    // the view test gives a hundred and fifty units all round
    assert!(inside_windowview(Rect::new(-100_000, 10_000, 1_000, 1_000), 0));
    assert!(!inside_windowview(Rect::new(-200_000, 10_000, 1_000, 1_000), 0));
    // the bordered test widens vertically only as asked
    assert!(inside_windowborder(inside, 0, 0));
    assert!(!inside_windowborder(Rect::new(500_000, -5_000, 1_000, 1_000), 0, 0));
    assert!(inside_windowborder(Rect::new(500_000, -5_000, 1_000, 1_000), 0, 10_000));
    // the asymmetric test keeps enemies alive ahead of the window
    assert!(inside_windowborder_extended_sides(
        Rect::new(2_000_000, 500_000, 1_000, 1_000),
        0,
        200_000,
        vec2i(200_000, 600_000)
    ));
    assert!(!inside_windowborder_extended_sides(
        Rect::new(2_600_000, 500_000, 1_000, 1_000),
        0,
        200_000,
        vec2i(200_000, 600_000)
    ));
}

#[test]
fn screen_and_viewspace_tests() {
    assert!(!inside_screen(Rect::new(0, 0, 1_920_000, 1_080_000)));
    assert!(inside_screen(Rect::new(-1, 0, 10, 10)));
    assert!(inside_screen(Rect::new(0, 0, 1_920_001, 10)));
    let mut v = Viewspace::new();
    v.set_position(vec2i(100, 100));
    v.set_radius(50);
    assert_eq!(v.get_position(), vec2i(100, 100));
    assert_eq!(v.get_radius(), 50);
    // a rect whose nearest point is 30 away is visible at radius 50
    assert!(inside_visible_area(Rect::new(130, 100, 10, 10), vec2i(100, 100), 50));
    // at distance 60 it is not
    assert!(!inside_visible_area(Rect::new(160, 100, 10, 10), vec2i(100, 100), 50));
    // touching exactly at the radius counts
    assert!(inside_visible_area(Rect::new(150, 100, 10, 10), vec2i(100, 100), 50));
}
