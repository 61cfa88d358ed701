//! Weapons: the firing cooldown and the aiming state that missiles are
//! spawned from.
//!
//! A weapon owns an entity (position, rotation, stat snapshot), follows a
//! parent entity, and fires through the missile pool when its cooldown has
//! run out.  The cooldown is counted in thousandths of a cooldown unit and
//! runs down by `firerate` units per second.
use vstd::prelude::*;
use crate::entity::{Entity, EntityName, Tag};
use crate::geom::{is_normalized_of, normalize, Vec2i};
use crate::missle::MisslePool;
use crate::world::{find_by_tag_spec, World};
use crate::{PoolError, COORD_LIMIT, DT_LIMIT, GAME_SIZE_X, GAME_SIZE_Y, STAT_LIMIT, SUBUNIT};

verus! {

/// The cooldown a shot rearms, in thousandths of a cooldown unit.
pub const WEAPON_COOLDOWN: i64 = 2000;

/// What one trigger pull produced.
#[derive(Clone, Copy, PartialEq, Eq, Structural, Debug)]
pub enum ShotOutcome {
    /// A missile went out of this pool slot.
    Fired(usize),
    /// The weapon was ready but every pool slot was active; the shot is
    /// dropped and the cooldown rearms all the same.
    PoolExhausted,
    /// The cooldown has not run out; it ran down by one frame instead.
    NotReady,
}

/// The weapon stands far enough from the coordinate limits that a shot's
/// spawn offset cannot leave the simulation's range.
pub open spec fn in_fire_range(p: Vec2i) -> bool {
    &&& -COORD_LIMIT + 100 * SUBUNIT <= p.x <= COORD_LIMIT - 100 * SUBUNIT
    &&& -COORD_LIMIT + 100 * SUBUNIT <= p.y <= COORD_LIMIT - 100 * SUBUNIT
}

/// A weapon: its entity, the entity it is mounted on, its aim, where
/// missiles appear relative to it, and the firing cooldown.
#[derive(Clone, Copy, PartialEq, Eq, Structural, Debug)]
pub struct Weapon {
    pub entity: Entity,
    pub parent: Option<Entity>,
    pub direction: Vec2i,
    pub missle_spawn_offset: Vec2i,
    pub cooldown_t: i64,
}

impl Weapon {
    /// Entity in range, aim no longer than a unit vector, spawn offset and
    /// cooldown bounded.
    pub open spec fn wf(self) -> bool {
        &&& self.entity.wf()
        &&& -SUBUNIT <= self.direction.x <= SUBUNIT
        &&& -SUBUNIT <= self.direction.y <= SUBUNIT
        &&& -100 * SUBUNIT <= self.missle_spawn_offset.x <= 100 * SUBUNIT
        &&& -100 * SUBUNIT <= self.missle_spawn_offset.y <= 100 * SUBUNIT
        &&& -(STAT_LIMIT * DT_LIMIT) <= self.cooldown_t <= WEAPON_COOLDOWN
    }

    /// Registers a weapon entity; aim, offset and cooldown start at zero.
    pub fn new(name: EntityName, tag: Tag, world: &mut World) -> (w: Weapon)
        requires
            old(world).wf(),
            old(world).entities_view().len() < usize::MAX,
        ensures
            final(world).wf(),
            w.wf(),
            w.entity == Entity::fresh_spec(name, tag, old(world).entities_view().len() as usize),
            w.parent == None::<Entity>,
            w.direction == (Vec2i { x: 0, y: 0 }),
            w.missle_spawn_offset == (Vec2i { x: 0, y: 0 }),
            w.cooldown_t == 0,
            final(world).entities_view() == old(world).entities_view().push(w.entity),
            final(world).actives_view() == old(world).actives_view(),
            final(world).score() == old(world).score(),
            final(world).offset() == old(world).offset(),
            final(world).completed() == old(world).completed(),
            final(world).difficulty() == old(world).difficulty(),
            final(world).level_view() == old(world).level_view(),
            final(world).particles_view() == old(world).particles_view(),
    {
        Weapon {
            entity: Entity::new(name, tag, world),
            parent: None,
            direction: Vec2i { x: 0, y: 0 },
            missle_spawn_offset: Vec2i { x: 0, y: 0 },
            cooldown_t: 0,
        }
    }

    /// Mounts the weapon on (or dismounts it from) a parent entity.
    pub fn set_parent(&mut self, parent: Option<Entity>)
        ensures
            *final(self) == (Weapon { parent, ..*old(self) }),
    {
        self.parent = parent;
    }

    /// Overwrites the stat snapshot missiles will copy.
    pub fn set_stats(&mut self, dmg: i64, firerate: i64, firespeed: i64)
        requires
            -STAT_LIMIT <= dmg <= STAT_LIMIT,
            0 <= firerate <= STAT_LIMIT,
            0 <= firespeed <= STAT_LIMIT,
        ensures
            final(self).entity.entity_params.damage == dmg,
            final(self).entity.entity_params.firerate == firerate,
            final(self).entity.entity_params.firespeed == firespeed,
            final(self).entity.entity_params.health == old(self).entity.entity_params.health,
            final(self).entity.entity_params.speed == old(self).entity.entity_params.speed,
            final(self).entity.entity_params.armor == old(self).entity.entity_params.armor,
            final(self).entity == (Entity {
                entity_params: final(self).entity.entity_params,
                ..old(self).entity
            }),
            final(self).parent == old(self).parent,
            final(self).direction == old(self).direction,
            final(self).missle_spawn_offset == old(self).missle_spawn_offset,
            final(self).cooldown_t == old(self).cooldown_t,
            old(self).wf() ==> final(self).wf(),
    {
        self.entity.entity_params.damage = dmg;
        self.entity.entity_params.firerate = firerate;
        self.entity.entity_params.firespeed = firespeed;
    }

    /// Gives the weapon its starting shape and place: the logical fallback
    /// size of twenty units, centred in the play window, with the base
    /// fire speed.  Only weapon-tagged entities take a shape.
    pub fn init(&mut self)
        requires
            old(self).wf(),
        ensures
            final(self).wf(),
            final(self).entity.id == old(self).entity.id,
            final(self).entity.tag == old(self).entity.tag,
            final(self).entity.name == old(self).entity.name,
            final(self).entity.is_active == old(self).entity.is_active,
            final(self).parent == old(self).parent,
            final(self).direction == old(self).direction,
            final(self).missle_spawn_offset == old(self).missle_spawn_offset,
            final(self).cooldown_t == old(self).cooldown_t,
            old(self).entity.tag == Tag::PlayerWeapon || old(self).entity.tag == Tag::EnemyWeapon
                ==> {
                &&& final(self).entity.transform.position == (Vec2i {
                    x: ((GAME_SIZE_X / 2) as i64),
                    y: ((GAME_SIZE_Y / 2) as i64),
                })
                &&& final(self).entity.transform.size == (Vec2i {
                    x: ((20 * SUBUNIT) as i64),
                    y: ((20 * SUBUNIT) as i64),
                })
                &&& final(self).entity.entity_params.firespeed == 100
            },
            !(old(self).entity.tag == Tag::PlayerWeapon || old(self).entity.tag
                == Tag::EnemyWeapon) ==> *final(self) == *old(self),
    {
        match self.entity.tag {
            Tag::PlayerWeapon | Tag::EnemyWeapon => {
                self.entity.transform.set_size(Vec2i { x: 20 * SUBUNIT, y: 20 * SUBUNIT });
                self.entity.transform.set_position(
                    Vec2i { x: GAME_SIZE_X / 2, y: GAME_SIZE_Y / 2 },
                );
                self.entity.entity_params.firespeed = 100;
            },
            _ => {},
        }
    }

    /// One aiming frame.  A player weapon aims at the pointer's world
    /// position and spawns missiles thirty units down the barrel, fifteen
    /// back from centre; an enemy weapon aims at the player (holding still
    /// when no player is registered) and spawns missiles sixty-five units
    /// out.  Either kind then follows its parent: the player weapon rides
    /// at a fixed offset, the enemy weapon at the parent's centre.
    pub fn update(&mut self, world: &World, pointer_world: Vec2i)
        requires
            old(self).wf(),
            world.wf(),
            pointer_world.in_range(),
        ensures
            final(self).wf(),
            final(self).entity.id == old(self).entity.id,
            final(self).entity.tag == old(self).entity.tag,
            final(self).entity.entity_params == old(self).entity.entity_params,
            old(self).entity.tag == Tag::PlayerWeapon ==> {
                &&& (pointer_world != old(self).entity.transform.position ==> is_normalized_of(
                    final(self).direction,
                    Vec2i {
                        x: (pointer_world.x - old(self).entity.transform.position.x) as i64,
                        y: (pointer_world.y - old(self).entity.transform.position.y) as i64,
                    },
                ))
                &&& final(self).missle_spawn_offset == (Vec2i {
                    x: (-15 * SUBUNIT + 30 * final(self).direction.x) as i64,
                    y: (30 * final(self).direction.y) as i64,
                })
                &&& (old(self).parent is Some && -COORD_LIMIT <= old(self).parent->Some_0.transform.position.x <= COORD_LIMIT - 14 * SUBUNIT && -COORD_LIMIT
                    <= old(self).parent->Some_0.transform.position.y <= COORD_LIMIT - 15 * SUBUNIT
                    ==> final(self).entity.transform.position == (Vec2i {
                    x: (old(self).parent->Some_0.transform.position.x + 14 * SUBUNIT) as i64,
                    y: (old(self).parent->Some_0.transform.position.y + 15 * SUBUNIT) as i64,
                }))
            },
            old(self).entity.tag == Tag::EnemyWeapon ==> {
                &&& (match find_by_tag_spec(world.entities_view(), Tag::Player) {
                    Some(player) => player.transform.position
                        != old(self).entity.transform.position ==> {
                        &&& is_normalized_of(
                            final(self).direction,
                            Vec2i {
                                x: (player.transform.position.x
                                    - old(self).entity.transform.position.x) as i64,
                                y: (player.transform.position.y
                                    - old(self).entity.transform.position.y) as i64,
                            },
                        )
                        &&& final(self).missle_spawn_offset == (Vec2i {
                            x: (65 * final(self).direction.x) as i64,
                            y: (65 * final(self).direction.y) as i64,
                        })
                    },
                    None => final(self).direction == old(self).direction && final(self).missle_spawn_offset == old(self).missle_spawn_offset,
                })
                &&& (old(self).parent is Some
                    && old(self).parent->Some_0.transform.position.in_range() ==> final(self).entity.transform.position == old(self).parent->Some_0.transform.position)
            },
            !(old(self).entity.tag == Tag::PlayerWeapon || old(self).entity.tag
                == Tag::EnemyWeapon) ==> *final(self) == *old(self),
    {
        match self.entity.tag {
            Tag::PlayerWeapon => {
                let dx = pointer_world.x - self.entity.transform.position.x;
                let dy = pointer_world.y - self.entity.transform.position.y;
                if dx != 0 || dy != 0 {
                    self.direction = normalize(Vec2i { x: dx, y: dy });
                }
                self.missle_spawn_offset = Vec2i {
                    x: -15 * SUBUNIT + 30 * self.direction.x,
                    y: 30 * self.direction.y,
                };
                match self.parent {
                    Some(parent) => {
                        if parent.transform.position.x <= COORD_LIMIT - 14 * SUBUNIT
                            && parent.transform.position.x >= -COORD_LIMIT
                            && parent.transform.position.y <= COORD_LIMIT - 15 * SUBUNIT
                            && parent.transform.position.y >= -COORD_LIMIT {
                            self.entity.transform.set_position(
                                Vec2i {
                                    x: parent.transform.position.x + 14 * SUBUNIT,
                                    y: parent.transform.position.y + 15 * SUBUNIT,
                                },
                            );
                        }
                    },
                    None => {},
                }
            },
            Tag::EnemyWeapon => {
                let player_option = world.get_entity_by_tag(Tag::Player);
                match player_option {
                    Some(player) => {
                        proof {
                            crate::world::lemma_find_by_tag_member(
                                world.entities_view(),
                                Tag::Player,
                            );
                        }
                        let dx = player.transform.position.x - self.entity.transform.position.x;
                        let dy = player.transform.position.y - self.entity.transform.position.y;
                        if dx != 0 || dy != 0 {
                            self.direction = normalize(Vec2i { x: dx, y: dy });
                            self.missle_spawn_offset = Vec2i {
                                x: 65 * self.direction.x,
                                y: 65 * self.direction.y,
                            };
                        }
                    },
                    None => {},
                }
                match self.parent {
                    Some(parent) => {
                        if parent.transform.position.x >= -COORD_LIMIT
                            && parent.transform.position.x <= COORD_LIMIT
                            && parent.transform.position.y >= -COORD_LIMIT
                            && parent.transform.position.y <= COORD_LIMIT {
                            self.entity.transform.set_position(parent.transform.position);
                        }
                    },
                    None => {},
                }
            },
            _ => {},
        }
    }

    /// One trigger pull.  A ready weapon (cooldown at or below zero) asks
    /// the missile pool for a slot: on success the missile flies with this
    /// weapon's snapshot, aim and spawn offset; with the pool exhausted the
    /// request is dropped and reported.  Either way the cooldown rearms.  A
    /// weapon not yet ready only runs its cooldown down by
    /// `firerate * dt`.
    pub fn shoot(&mut self, misslepool: &mut MisslePool, world: &mut World, dt: i64) -> (r:
        ShotOutcome)
        requires
            old(self).wf(),
            old(world).wf(),
            old(misslepool).wf(old(world).entities_view().len() as int),
            0 <= dt <= DT_LIMIT,
            -COORD_LIMIT <= old(self).entity.transform.position.x + old(self).missle_spawn_offset.x <= COORD_LIMIT,
            -COORD_LIMIT <= old(self).entity.transform.position.y + old(self).missle_spawn_offset.y <= COORD_LIMIT,
        ensures
            final(self).wf(),
            final(world).wf(),
            final(misslepool).wf(final(world).entities_view().len() as int),
            final(misslepool).pool_view().len() == old(misslepool).pool_view().len(),
            final(world).entities_view().len() == old(world).entities_view().len(),
            final(world).score() == old(world).score(),
            final(world).offset() == old(world).offset(),
            final(world).completed() == old(world).completed(),
            final(world).difficulty() == old(world).difficulty(),
            final(world).level_view() == old(world).level_view(),
            final(world).particles_view() == old(world).particles_view(),
            final(self).entity == old(self).entity,
            final(self).parent == old(self).parent,
            final(self).direction == old(self).direction,
            final(self).missle_spawn_offset == old(self).missle_spawn_offset,
            r == ShotOutcome::NotReady <==> old(self).cooldown_t > 0,
            forall|i: int|
                0 <= i < old(misslepool).pool_view().len() && (
                #[trigger] old(misslepool).pool_view()[i]).entity.is_active ==> final(misslepool).pool_view()[i] == old(misslepool).pool_view()[i],
            final(self).cooldown_t == (if old(self).cooldown_t <= 0 {
                WEAPON_COOLDOWN as int
            } else {
                old(self).cooldown_t - old(self).entity.entity_params.firerate * dt
            }),
            old(self).cooldown_t > 0 ==> {
                &&& final(self).cooldown_t == old(self).cooldown_t - old(self).entity.entity_params.firerate * dt
                &&& final(misslepool).pool_view() == old(misslepool).pool_view()
                &&& final(world).entities_view() == old(world).entities_view()
                &&& final(world).actives_view() == old(world).actives_view()
            },
            old(self).cooldown_t <= 0 ==> {
                &&& final(self).cooldown_t == WEAPON_COOLDOWN
                &&& match r {
                    ShotOutcome::Fired(slot) => {
                        &&& slot < old(misslepool).pool_view().len()
                        &&& !old(misslepool).pool_view()[slot as int].entity.is_active
                        &&& forall|j: int|
                            0 <= j < slot ==> (
                            #[trigger] old(misslepool).pool_view()[j]).entity.is_active
                        &&& final(misslepool).pool_view() == old(misslepool).pool_view().update(
                            slot as int,
                            crate::missle::MisslePool::fired_slot_spec(
                                old(misslepool).pool_view()[slot as int],
                                old(self).entity,
                                old(self).direction,
                                old(self).missle_spawn_offset,
                            ),
                        )
                    },
                    ShotOutcome::PoolExhausted => {
                        &&& forall|j: int|
                            0 <= j < old(misslepool).pool_view().len() ==> (
                            #[trigger] old(misslepool).pool_view()[j]).entity.is_active
                        &&& final(misslepool).pool_view() == old(misslepool).pool_view()
                        &&& final(world).entities_view() == old(world).entities_view()
                    },
                    ShotOutcome::NotReady => false,
                }
            },
    {
        if self.cooldown_t <= 0 {
            let r = misslepool.fire_missle(
                self.entity,
                self.direction,
                self.missle_spawn_offset,
                world,
            );
            self.cooldown_t = WEAPON_COOLDOWN;
            match r {
                Ok(slot) => ShotOutcome::Fired(slot),
                Err(PoolError::Exhausted) => ShotOutcome::PoolExhausted,
            }
        } else {
            proof {
                let ghost fr = self.entity.entity_params.firerate as int;
                assert(0 <= fr * dt <= STAT_LIMIT * (DT_LIMIT as int)) by (nonlinear_arith)
                    requires
                        0 <= fr <= STAT_LIMIT,
                        0 <= dt <= DT_LIMIT,
                ;
            }
            self.cooldown_t = self.cooldown_t - self.entity.entity_params.firerate * dt;
            ShotOutcome::NotReady
        }
    }
}

} // verus!
