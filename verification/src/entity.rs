//! The unit of simulation state: a plain record of identity, spatial
//! transform, gameplay parameters and activity flags.
//!
//! Classification is by a closed `Tag` enumeration (the collision rules
//! dispatch on it) rather than by free-form strings, so the rule table can
//! be checked exhaustively.
use vstd::prelude::*;
use crate::geom::{Transform, Vec2i};
use crate::world::World;
use crate::{DT_LIMIT, STAT_LIMIT};

verus! {

/// Display name of an entity; a closed set, one variant per actor kind the
/// game constructs.
#[derive(Clone, Copy, PartialEq, Eq, Structural, Debug)]
pub enum EntityName {
    Player,
    PlayerWeapon,
    Enemy,
    Missle,
    EnemySpawner,
    Turret,
    TankWeapon,
    GunnerWeapon,
    TurretWeapon,
    Wall,
    BlockingWall,
    Trap,
    DestructibleWall,
    End,
}

/// Classification label used for collision dispatch and registry queries.
#[derive(Clone, Copy, PartialEq, Eq, Structural, Debug)]
pub enum Tag {
    Player,
    PlayerWeapon,
    PlayerMissle,
    Enemy,
    EnemyWeapon,
    EnemyMissle,
    Missle,
    Wall,
    BlockingWall,
    TrapWall,
    Destructible,
    EnemySpawner,
    Spawner,
    Turret,
    End,
}

impl Tag {
    /// The tag belongs to the player's side: the player itself, its weapon,
    /// or a missile it fired.
    pub open spec fn is_player_side(self) -> bool {
        self == Tag::Player || self == Tag::PlayerWeapon || self == Tag::PlayerMissle
    }

    /// The tag belongs to the enemy side: an enemy, an enemy weapon, or a
    /// missile one of them fired.
    pub open spec fn is_enemy_side(self) -> bool {
        self == Tag::Enemy || self == Tag::EnemyWeapon || self == Tag::EnemyMissle
    }

    /// The tag marks a missile, whoever fired it.
    pub open spec fn is_missle(self) -> bool {
        self == Tag::PlayerMissle || self == Tag::EnemyMissle || self == Tag::Missle
    }
}

/// The tag a missile carries, derived from the tag of the weapon that
/// fired it.
pub open spec fn missle_tag_for(weapon_tag: Tag) -> Tag {
    if weapon_tag.is_player_side() {
        Tag::PlayerMissle
    } else if weapon_tag.is_enemy_side() {
        Tag::EnemyMissle
    } else {
        Tag::Missle
    }
}

/// Executable form of `missle_tag_for`.
pub fn missle_tag_of(weapon_tag: Tag) -> (t: Tag)
    ensures
        t == missle_tag_for(weapon_tag),
{
    match weapon_tag {
        Tag::Player | Tag::PlayerWeapon | Tag::PlayerMissle => Tag::PlayerMissle,
        Tag::Enemy | Tag::EnemyWeapon | Tag::EnemyMissle => Tag::EnemyMissle,
        _ => Tag::Missle,
    }
}

/// Gameplay statistics of an entity.  `health <= 0` is the universal
/// "destroyed" signal, checked by the owning game object, never by the
/// registry itself.
#[derive(Clone, Copy, PartialEq, Eq, Structural, Debug)]
pub struct EntityParams {
    pub health: i64,
    pub speed: i64,
    pub damage: i64,
    pub armor: i64,
    pub firespeed: i64,
    pub firerate: i64,
}

impl EntityParams {
    /// All stats within the simulation's range; rates and speeds are
    /// non-negative.
    pub open spec fn wf(self) -> bool {
        &&& -STAT_LIMIT <= self.health <= STAT_LIMIT
        &&& 0 <= self.speed <= STAT_LIMIT
        &&& -STAT_LIMIT <= self.damage <= STAT_LIMIT
        &&& -STAT_LIMIT <= self.armor <= STAT_LIMIT
        &&& 0 <= self.firespeed <= STAT_LIMIT
        &&& 0 <= self.firerate <= STAT_LIMIT
    }

    /// The neutral record: one point of health, everything else zero.
    pub open spec fn default_spec() -> EntityParams {
        EntityParams { health: 1, speed: 0, damage: 0, armor: 0, firespeed: 0, firerate: 0 }
    }

    /// Builds the neutral record.
    pub fn default() -> (p: EntityParams)
        ensures
            p == EntityParams::default_spec(),
            p.wf(),
    {
        EntityParams { health: 1, speed: 0, damage: 0, armor: 0, firespeed: 0, firerate: 0 }
    }
}

/// How long a hit keeps an entity in its hit-feedback state, in
/// milliseconds.
pub const HIT_FEEDBACK_DURATION: i64 = 50;

/// A simulation actor: pure data plus small derived accessors.
#[derive(Clone, Copy, PartialEq, Eq, Structural, Debug)]
pub struct Entity {
    /// Identity, assigned as the registry's size at registration and stable
    /// for the session.
    pub id: usize,
    pub name: EntityName,
    pub tag: Tag,
    pub transform: Transform,
    pub entity_params: EntityParams,
    pub is_active: bool,
    pub collision_is_enabled: bool,
    pub sprite_is_active: bool,
    /// Set by the visibility culling passes: the entity lies in the view
    /// window this frame.
    pub in_view: bool,
    pub hit_feedback_duration: i64,
    pub hit_feedback_timer: i64,
}

impl Entity {
    /// Transform, stats and timers are all in range.
    pub open spec fn wf(self) -> bool {
        &&& self.transform.wf()
        &&& self.entity_params.wf()
        &&& 0 <= self.hit_feedback_duration <= DT_LIMIT
        &&& -DT_LIMIT <= self.hit_feedback_timer <= DT_LIMIT
    }

    /// The record a fresh registration carries: default transform and
    /// stats, active, collidable, untouched timers.
    pub open spec fn fresh_spec(name: EntityName, tag: Tag, id: usize) -> Entity {
        Entity {
            id,
            name,
            tag,
            transform: Transform {
                position: Vec2i { x: 0, y: 0 },
                rotation: 0,
                size: Vec2i { x: 10000, y: 10000 },
                scale: 1000,
                rect: crate::geom::Rect { x: 0, y: 0, w: 10000, h: 10000 },
            },
            entity_params: EntityParams::default_spec(),
            is_active: true,
            collision_is_enabled: true,
            sprite_is_active: true,
            in_view: false,
            hit_feedback_duration: HIT_FEEDBACK_DURATION,
            hit_feedback_timer: 0,
        }
    }

    /// Constructs an entity and registers it: its identity is the
    /// registry's size at the moment of the call, and the registry grows by
    /// exactly this record.
    pub fn new(name: EntityName, tag: Tag, world: &mut World) -> (e: Entity)
        requires
            old(world).wf(),
            old(world).entities_view().len() < usize::MAX,
        ensures
            final(world).wf(),
            e == Entity::fresh_spec(name, tag, old(world).entities_view().len() as usize),
            e.wf(),
            final(world).entities_view() == old(world).entities_view().push(e),
            final(world).actives_view() == old(world).actives_view(),
            final(world).score() == old(world).score(),
            final(world).offset() == old(world).offset(),
            final(world).completed() == old(world).completed(),
            final(world).difficulty() == old(world).difficulty(),
            final(world).level_view() == old(world).level_view(),
            final(world).particles_view() == old(world).particles_view(),
    {
        let id = world.entity_count();
        let e = Entity {
            id,
            name,
            tag,
            transform: Transform::default(),
            entity_params: EntityParams::default(),
            is_active: true,
            collision_is_enabled: true,
            sprite_is_active: true,
            in_view: false,
            hit_feedback_duration: HIT_FEEDBACK_DURATION,
            hit_feedback_timer: 0,
        };
        world.add_entity(e);
        e
    }

    /// Sets the active flag and nothing else.
    pub fn SetActive(&mut self, state: bool)
        ensures
            *final(self) == (Entity { is_active: state, ..*old(self) }),
    {
        self.is_active = state;
    }

    /// The record after taking one hit: the feedback timer rearmed and one
    /// hit-unit of health gone (health is already at the simulation's floor
    /// in the second arm, where it stays put).
    pub open spec fn hit_spec(self) -> Entity {
        Entity {
            hit_feedback_timer: self.hit_feedback_duration,
            entity_params: EntityParams {
                health: if self.entity_params.health > -STAT_LIMIT {
                    (self.entity_params.health - 1) as i64
                } else {
                    self.entity_params.health
                },
                ..self.entity_params
            },
            ..self
        }
    }

    /// Takes one hit: health falls by exactly one hit-unit and the
    /// hit-feedback timer is rearmed.  The striking entity's stats are
    /// accepted for interface fidelity; the damage model is one unit per
    /// hit.
    pub fn hit(&mut self, entity_params: &EntityParams)
        ensures
            *final(self) == old(self).hit_spec(),
    {
        let _ = entity_params;
        self.hit_feedback_timer = self.hit_feedback_duration;
        if self.entity_params.health > -STAT_LIMIT {
            self.entity_params.health = self.entity_params.health - 1;
        }
    }

    /// Runs down the hit-feedback timer by one frame.
    pub fn hit_cooldown(&mut self, dt: i64)
        requires
            old(self).wf(),
            0 <= dt <= DT_LIMIT,
        ensures
            final(self).wf(),
            *final(self) == (Entity {
                hit_feedback_timer: if old(self).hit_feedback_timer > 0 {
                    (old(self).hit_feedback_timer - dt) as i64
                } else {
                    old(self).hit_feedback_timer
                },
                ..*old(self)
            }),
    {
        if self.hit_feedback_timer > 0 {
            self.hit_feedback_timer = self.hit_feedback_timer - dt;
        }
    }
}

} // verus!
