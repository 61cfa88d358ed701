//! A pooled enemy: steering toward the player, the destroyed-versus-culled
//! exit paths, and the collision rules that damage it.
use vstd::prelude::*;
use crate::collision::resolve_intersection;
use crate::enemytypes::{EnemyType, EnemyVariant};
use crate::entity::{Entity, EntityName, EntityParams, Tag};
use crate::geom::{is_normalized_of, motion_delta, normalize, rects_overlap, scaled_step, Rect, Transform, Vec2i};
use crate::missle::MisslePool;
use crate::weapon::{in_fire_range, ShotOutcome, WEAPON_COOLDOWN};
use crate::world::{find_by_tag_spec, lemma_find_by_tag_member, World};
use crate::{COORD_LIMIT, DT_LIMIT, SUBUNIT};

verus! {

/// A pooled enemy: its slot index, its embedded entity, its kind's
/// configuration, and whether it stood in the view window this frame.
#[derive(Clone, Copy, PartialEq, Eq, Structural, Debug)]
pub struct Enemy {
    pub enemy_id: usize,
    pub entity: Entity,
    pub variant: EnemyVariant,
    pub in_viewspace: bool,
}

impl Enemy {
    /// Entity and variant in range.
    pub open spec fn wf(self) -> bool {
        &&& self.entity.wf()
        &&& self.variant.wf()
    }

    /// The slot after a release: stats back to the neutral record, centre
    /// moved to the origin (size and scale are kept), inactive.  The
    /// identity and the slot index never change.
    pub open spec fn reset_spec(self) -> Enemy {
        Enemy {
            entity: Entity {
                transform: Transform {
                    position: Vec2i { x: 0, y: 0 },
                    rect: Rect {
                        x: (0 - self.entity.transform.full_w() / 2) as i64,
                        y: (0 - self.entity.transform.full_h() / 2) as i64,
                        ..self.entity.transform.rect
                    },
                    ..self.entity.transform
                },
                entity_params: EntityParams::default_spec(),
                is_active: false,
                ..self.entity
            },
            ..self
        }
    }

    /// Binds a fresh slot: registers the embedded entity and configures it
    /// as the default (unarmed) kind.
    pub fn new(index: usize, world: &mut World) -> (e: Enemy)
        requires
            old(world).wf(),
            old(world).entities_view().len() < usize::MAX,
        ensures
            final(world).wf(),
            e.wf(),
            e.enemy_id == index,
            !e.in_viewspace,
            e.variant.weapon is None,
            e.entity == Entity::fresh_spec(
                EntityName::Enemy,
                Tag::Enemy,
                old(world).entities_view().len() as usize,
            ),
            final(world).entities_view() == old(world).entities_view().push(e.entity),
            final(world).actives_view() == old(world).actives_view(),
            final(world).score() == old(world).score(),
            final(world).offset() == old(world).offset(),
            final(world).completed() == old(world).completed(),
            final(world).difficulty() == old(world).difficulty(),
            final(world).level_view() == old(world).level_view(),
            final(world).particles_view() == old(world).particles_view(),
    {
        let entity = Entity::new(EntityName::Enemy, Tag::Enemy, world);
        let variant = EnemyVariant::default_variant(world);
        Enemy { enemy_id: index, entity, variant, in_viewspace: false }
    }

    /// Releases the slot: neutral stats, centred at the origin, inactive.
    pub fn reset(&mut self)
        requires
            old(self).wf(),
        ensures
            final(self).wf(),
            *final(self) == old(self).reset_spec(),
            final(self).entity.id == old(self).entity.id,
            !final(self).entity.is_active,
    {
        self.entity.entity_params = EntityParams::default();
        self.entity.transform.set_position(Vec2i { x: 0, y: 0 });
        self.entity.is_active = false;
    }

    /// Reconfigures the slot as another enemy kind: the variant's stats
    /// and size are copied onto the entity.  An armed kind registers its
    /// weapon entity with the world.
    pub fn set_enemytype(&mut self, e_type: &EnemyType, world: &mut World)
        requires
            old(self).wf(),
            old(world).wf(),
            old(world).entities_view().len() < usize::MAX,
        ensures
            final(self).wf(),
            final(world).wf(),
            final(self).enemy_id == old(self).enemy_id,
            final(self).entity.id == old(self).entity.id,
            final(self).entity.is_active == old(self).entity.is_active,
            final(self).entity.entity_params == final(self).variant.params,
            final(self).entity.transform.size == final(self).variant.size,
            *e_type == EnemyType::Default ==> final(self).variant.weapon is None && final(self).variant.points == 20 && final(world).entities_view() == old(world).entities_view(),
            old(world).entities_view().len() <= final(world).entities_view().len() <= old(world).entities_view().len() + 1,
            final(world).score() == old(world).score(),
            final(world).offset() == old(world).offset(),
            final(world).completed() == old(world).completed(),
            final(world).difficulty() == old(world).difficulty(),
            final(world).level_view() == old(world).level_view(),
            final(world).particles_view() == old(world).particles_view(),
    {
        self.variant = EnemyVariant::get_variant(*e_type, world);
        self.entity.entity_params = self.variant.params;
        proof {
            assert(self.variant.size.x * self.entity.transform.scale <= COORD_LIMIT * SUBUNIT
                && self.variant.size.y * self.entity.transform.scale <= COORD_LIMIT * SUBUNIT)
                by (nonlinear_arith)
                requires
                    0 <= self.variant.size.x <= 1000 * SUBUNIT,
                    0 <= self.variant.size.y <= 1000 * SUBUNIT,
                    0 <= self.entity.transform.scale <= crate::geom::SCALE_LIMIT,
            ;
        }
        self.entity.transform.set_size(self.variant.size);
    }

    /// Fires the enemy's weapon, if its kind carries one, with the enemy's
    /// current stats copied onto it.
    pub fn shoot(&mut self, misslepool: &mut MisslePool, world: &mut World, dt: i64) -> (r:
        ShotOutcome)
        requires
            old(self).wf(),
            old(world).wf(),
            old(misslepool).wf(old(world).entities_view().len() as int),
            0 <= dt <= DT_LIMIT,
        ensures
            final(self).wf(),
            final(world).wf(),
            final(misslepool).wf(final(world).entities_view().len() as int),
            final(misslepool).pool_view().len() == old(misslepool).pool_view().len(),
            final(world).entities_view().len() == old(world).entities_view().len(),
            final(world).score() == old(world).score(),
            final(world).offset() == old(world).offset(),
            final(world).completed() == old(world).completed(),
            final(world).difficulty() == old(world).difficulty(),
            final(world).level_view() == old(world).level_view(),
            final(world).particles_view() == old(world).particles_view(),
            final(self).entity == old(self).entity,
            final(self).enemy_id == old(self).enemy_id,
            old(self).variant.weapon is None ==> r == ShotOutcome::NotReady && *final(self) == *old(self) && final(misslepool).pool_view() == old(misslepool).pool_view() && final(world).entities_view() == old(world).entities_view(),
            old(self).variant.weapon is Some ==> final(self).variant.weapon is Some,
            r == ShotOutcome::NotReady ==> final(misslepool).pool_view() == old(misslepool).pool_view() && final(world).entities_view() == old(world).entities_view(),
            forall|i: int|
                0 <= i < old(misslepool).pool_view().len() && (
                #[trigger] old(misslepool).pool_view()[i]).entity.is_active ==> final(misslepool).pool_view()[i] == old(misslepool).pool_view()[i],
            old(self).variant.weapon is Some && in_fire_range(
                old(self).variant.weapon->Some_0.entity.transform.position,
            ) ==> {
                &&& (r == ShotOutcome::NotReady <==> old(self).variant.weapon->Some_0.cooldown_t
                    > 0)
                &&& final(self).variant.weapon->Some_0.cooldown_t == (if old(self).variant.weapon->Some_0.cooldown_t <= 0 {
                    WEAPON_COOLDOWN as int
                } else {
                    old(self).variant.weapon->Some_0.cooldown_t - old(self).entity.entity_params.firerate * dt
                })
            },
            old(self).variant.weapon is Some && !in_fire_range(
                old(self).variant.weapon->Some_0.entity.transform.position,
            ) ==> r == ShotOutcome::NotReady && final(misslepool).pool_view() == old(misslepool).pool_view() && final(self).variant.weapon->Some_0.cooldown_t == old(self).variant.weapon->Some_0.cooldown_t,
    {
        match self.variant.weapon {
            Some(weapon) => {
                let mut w = weapon;
                w.entity.entity_params = self.entity.entity_params;
                if w.entity.transform.position.x >= -COORD_LIMIT + 100 * SUBUNIT
                    && w.entity.transform.position.x <= COORD_LIMIT - 100 * SUBUNIT
                    && w.entity.transform.position.y >= -COORD_LIMIT + 100 * SUBUNIT
                    && w.entity.transform.position.y <= COORD_LIMIT - 100 * SUBUNIT {
                    let r = w.shoot(misslepool, world, dt);
                    self.variant.weapon = Some(w);
                    r
                } else {
                    self.variant.weapon = Some(w);
                    ShotOutcome::NotReady
                }
            },
            None => ShotOutcome::NotReady,
        }
    }

    /// The enemy's coordinates stay in range through one steering step.
    pub open spec fn can_step(self, dt: int) -> bool {
        &&& -COORD_LIMIT <= self.entity.transform.position.x - self.entity.entity_params.speed * dt
        &&& self.entity.transform.position.x + self.entity.entity_params.speed * dt <= COORD_LIMIT
        &&& -COORD_LIMIT <= self.entity.transform.position.y - self.entity.entity_params.speed * dt
        &&& self.entity.transform.position.y + self.entity.entity_params.speed * dt <= COORD_LIMIT
    }

    /// One simulation frame.  A destroyed enemy (health at or below zero)
    /// awards its point value to the world's score, is released, and its
    /// record is written back.  A live one runs down its hit-feedback
    /// timer and steers straight toward the player's current position at
    /// its own speed; with no player registered, or standing exactly on
    /// the player, it holds still.
    pub fn update(&mut self, world: &mut World, dt: i64)
        requires
            old(self).wf(),
            old(world).wf(),
            0 <= dt <= DT_LIMIT,
            old(self).can_step(dt as int),
            old(self).entity.id < old(world).entities_view().len(),
        ensures
            final(self).wf(),
            final(world).wf(),
            final(world).entities_view().len() == old(world).entities_view().len(),
            final(world).offset() == old(world).offset(),
            final(world).completed() == old(world).completed(),
            final(world).difficulty() == old(world).difficulty(),
            final(world).level_view() == old(world).level_view(),
            final(world).particles_view() == old(world).particles_view(),
            final(self).enemy_id == old(self).enemy_id,
            final(self).entity.id == old(self).entity.id,
            old(self).entity.entity_params.health <= 0 ==> {
                &&& *final(self) == old(self).reset_spec()
                &&& final(world).score() == (if old(world).score() + old(self).variant.points
                    > i64::MAX {
                    i64::MAX as int
                } else {
                    old(world).score() + old(self).variant.points
                })
                &&& final(world).entities_view() == old(world).entities_view().update(
                    old(self).entity.id as int,
                    final(self).entity,
                )
            },
            old(self).entity.entity_params.health > 0 ==> {
                &&& final(world).score() == old(world).score()
                &&& final(world).entities_view() == old(world).entities_view()
                &&& final(self).entity.entity_params == old(self).entity.entity_params
                &&& final(self).entity.is_active == old(self).entity.is_active
                &&& final(self).entity.hit_feedback_timer == (if old(self).entity.hit_feedback_timer > 0 {
                    old(self).entity.hit_feedback_timer - dt
                } else {
                    old(self).entity.hit_feedback_timer as int
                })
                &&& match find_by_tag_spec(old(world).entities_view(), Tag::Player) {
                    Some(player) => {
                        if player.transform.position == old(self).entity.transform.position {
                            final(self).entity.transform.position == old(self).entity.transform.position
                        } else {
                            exists|nd: Vec2i|
                                #[trigger] is_normalized_of(
                                    nd,
                                    Vec2i {
                                        x: (old(self).entity.transform.position.x
                                            - player.transform.position.x) as i64,
                                        y: (old(self).entity.transform.position.y
                                            - player.transform.position.y) as i64,
                                    },
                                ) && final(self).entity.transform.position == (Vec2i {
                                    x: (old(self).entity.transform.position.x - motion_delta(
                                        nd.x as int,
                                        old(self).entity.entity_params.speed as int,
                                        dt as int,
                                    )) as i64,
                                    y: (old(self).entity.transform.position.y - motion_delta(
                                        nd.y as int,
                                        old(self).entity.entity_params.speed as int,
                                        dt as int,
                                    )) as i64,
                                })
                        }
                    },
                    None => final(self).entity.transform.position == old(self).entity.transform.position,
                }
            },
    {
        if self.entity.entity_params.health <= 0 {
            self.reset();
            let points = self.variant.points;
            world.add_scorepoints(points);
            world.set_entity(&self.entity);
            return ;
        }
        self.entity.hit_cooldown(dt);
        let player_option = world.get_entity_by_tag(Tag::Player);
        match player_option {
            Some(player) => {
                proof {
                    lemma_find_by_tag_member(world.entities_view(), Tag::Player);
                }
                let dx = self.entity.transform.position.x - player.transform.position.x;
                let dy = self.entity.transform.position.y - player.transform.position.y;
                if dx != 0 || dy != 0 {
                    let dir = normalize(Vec2i { x: dx, y: dy });
                    let step_x = scaled_step(dir.x, self.entity.entity_params.speed, dt);
                    let step_y = scaled_step(dir.y, self.entity.entity_params.speed, dt);
                    let position = Vec2i {
                        x: self.entity.transform.position.x - step_x,
                        y: self.entity.transform.position.y - step_y,
                    };
                    self.entity.transform.set_position(position);
                }
            },
            None => {},
        }
        match self.variant.weapon {
            Some(weapon) => {
                let mut w = weapon;
                w.set_parent(Some(self.entity));
                w.update(world, Vec2i { x: 0, y: 0 });
                self.variant.weapon = Some(w);
            },
            None => {},
        }
    }

    /// The enemy after one collision resolution: an inactive entity is
    /// skipped entirely (its rectangle, reset or not, never counts as
    /// geometry); touching the player destroys the enemy outright (health
    /// to zero); a player missile lands one hit, gated by the
    /// hit-feedback timer; every other pairing passes through.
    pub open spec fn collide_spec(self, entity: Entity) -> Enemy {
        if !entity.is_active || !rects_overlap(self.entity.transform.rect, entity.transform.rect) {
            self
        } else if entity.tag == Tag::Player {
            Enemy {
                entity: Entity {
                    entity_params: EntityParams { health: 0, ..self.entity.entity_params },
                    ..self.entity
                },
                ..self
            }
        } else if entity.tag == Tag::PlayerMissle && self.entity.hit_feedback_timer <= 0 {
            Enemy { entity: self.entity.hit_spec(), ..self }
        } else {
            self
        }
    }

    /// The enemy after resolving against the first `k` entities of the
    /// snapshot, in order.
    pub open spec fn scan_prefix(self, actives: Seq<Entity>, k: int) -> Enemy
        decreases k,
    {
        if k <= 0 || k > actives.len() {
            self
        } else {
            self.scan_prefix(actives, k - 1).collide_spec(actives[k - 1])
        }
    }

    /// Resolves the enemy against one entity, exactly as `collide_spec`
    /// says.
    pub fn on_collision(&mut self, entity: &Entity)
        ensures
            *final(self) == old(self).collide_spec(*entity),
            final(self).enemy_id == old(self).enemy_id,
            final(self).entity.id == old(self).entity.id,
            final(self).entity.transform == old(self).entity.transform,
            final(self).entity.is_active == old(self).entity.is_active,
            final(self).variant == old(self).variant,
            old(self).wf() ==> final(self).wf(),
    {
        if !entity.is_active {
            return ;
        }
        if !resolve_intersection(self.entity.transform.rect, entity.transform.rect) {
            return ;
        }
        match entity.tag {
            Tag::Player => {
                self.entity.entity_params.health = 0;
            },
            Tag::PlayerMissle => {
                if self.entity.hit_feedback_timer <= 0 {
                    let params = entity.entity_params;
                    self.entity.hit(&params);
                }
            },
            _ => {},
        }
    }
}

} // verus!
