//! The player: held-key movement with window and wall vetoes, the forced
//! scroll, the death zone, and the collision rules that damage the ship.
use vstd::prelude::*;
use crate::collision::{
    outside_deathzone, outside_windowborder, resolve_deathzone, resolve_intersection,
    resolve_windowborder,
};
use crate::entity::{Entity, EntityName, EntityParams, Tag};
use crate::entityparam_settings::EntitySettings;
use crate::geom::{rects_overlap, Rect, Transform, Vec2i};
use crate::missle::MisslePool;
use crate::weapon::{in_fire_range, ShotOutcome, Weapon, WEAPON_COOLDOWN};
use crate::world::World;
use crate::{COORD_LIMIT, DT_LIMIT, GAME_SIZE_X, GAME_SIZE_Y, LEVEL_SPEED, SUBUNIT};

verus! {

/// The frame-local input the embedding program polls: held movement keys,
/// the trigger, and the pointer's position in world coordinates.
#[derive(Clone, Copy, PartialEq, Eq, Structural, Debug)]
pub struct PlayerInput {
    pub up: bool,
    pub down: bool,
    pub left: bool,
    pub right: bool,
    pub fire: bool,
    /// The pause control was released this frame.
    pub pause: bool,
    pub pointer: Vec2i,
}

impl PlayerInput {
    /// No key held, trigger loose, pointer at the origin.
    pub fn idle() -> (i: PlayerInput)
        ensures
            i == (PlayerInput {
                up: false,
                down: false,
                left: false,
                right: false,
                fire: false,
                pause: false,
                pointer: Vec2i { x: 0, y: 0 },
            }),
    {
        PlayerInput {
            up: false,
            down: false,
            left: false,
            right: false,
            fire: false,
            pause: false,
            pointer: Vec2i { x: 0, y: 0 },
        }
    }
}

/// A transform moved to `p`, with its rectangle re-centred around it.
pub open spec fn positioned(t: Transform, p: Vec2i) -> Transform {
    Transform {
        position: p,
        rect: Rect {
            x: (p.x - t.full_w() / 2) as i64,
            y: (p.y - t.full_h() / 2) as i64,
            ..t.rect
        },
        ..t
    }
}

/// The rectangle meets some wall in the culled wall list.
pub open spec fn blocked_by_walls(r: Rect, walls: Seq<Rect>) -> bool {
    exists|i: int| 0 <= i < walls.len() && rects_overlap(r, #[trigger] walls[i])
}

/// The candidate position one held key proposes is taken exactly when the
/// moved rectangle stays inside the scrolled window and meets no blocking
/// wall.
pub open spec fn move_allowed(t: Transform, p: Vec2i, offset: int, walls: Seq<Rect>) -> bool {
    &&& !outside_windowborder(positioned(t, p).rect, offset)
    &&& !blocked_by_walls(positioned(t, p).rect, walls)
}

/// One key-move proposal of `(dx, dy)`: taken exactly when allowed.
pub open spec fn try_step(t: Transform, dx: int, dy: int, offset: int, walls: Seq<Rect>) -> Transform {
    let p = Vec2i { x: (t.position.x + dx) as i64, y: (t.position.y + dy) as i64 };
    if move_allowed(t, p, offset, walls) {
        positioned(t, p)
    } else {
        t
    }
}

/// The transform after the four held-key proposals, in the fixed order
/// up, down, left, right, each at `speed * dt` and each vetoed
/// independently.
pub open spec fn after_keys(
    t: Transform,
    input: PlayerInput,
    offset: int,
    walls: Seq<Rect>,
    speed: int,
    dt: int,
) -> Transform {
    let t1 = if input.up {
        try_step(t, 0, -(speed * dt), offset, walls)
    } else {
        t
    };
    let t2 = if input.down {
        try_step(t1, 0, speed * dt, offset, walls)
    } else {
        t1
    };
    let t3 = if input.left {
        try_step(t2, -(speed * dt), 0, offset, walls)
    } else {
        t2
    };
    if input.right {
        try_step(t3, speed * dt, 0, offset, walls)
    } else {
        t3
    }
}

/// The wall probe three ship-speeds ahead that gates the forced scroll
/// and feeds the death-zone test.
pub open spec fn scroll_probe(t: Transform, speed: int, dt: int) -> Rect {
    positioned(t, Vec2i { x: (t.position.x + 3 * speed * dt) as i64, y: t.position.y }).rect
}

/// The transform after one whole movement frame: the four key proposals,
/// then the forced scroll of `LEVEL_SPEED * dt`, taken unless the probe
/// ahead meets a wall.
pub open spec fn after_moves(
    t: Transform,
    input: PlayerInput,
    offset: int,
    walls: Seq<Rect>,
    speed: int,
    dt: int,
) -> Transform {
    let t4 = after_keys(t, input, offset, walls, speed, dt);
    if !blocked_by_walls(scroll_probe(t4, speed, dt), walls) {
        positioned(
            t4,
            Vec2i { x: (t4.position.x + LEVEL_SPEED * dt) as i64, y: t4.position.y },
        )
    } else {
        t4
    }
}

/// The player's ship: its entity, its weapon, whether it has reached the
/// level-end marker, and the banking angle the renderer reads.
#[derive(Clone, Copy, PartialEq, Eq, Structural, Debug)]
pub struct Player {
    pub entity: Entity,
    pub weapon: Weapon,
    pub reached_end: bool,
    /// Banking angle in millidegrees; presentation state only.
    pub ship_angle: i64,
}

impl Player {
    /// Entity and weapon in range.
    pub open spec fn wf(self) -> bool {
        &&& self.entity.wf()
        &&& self.weapon.wf()
        &&& -30_000 <= self.ship_angle <= 30_000
    }

    /// Registers the player's weapon and then the player itself, with the
    /// player stat table applied.
    pub fn new(world: &mut World) -> (p: Player)
        requires
            old(world).wf(),
            old(world).entities_view().len() < usize::MAX - 1,
        ensures
            final(world).wf(),
            p.wf(),
            p.entity.tag == Tag::Player,
            p.entity.id == old(world).entities_view().len() + 1,
            p.entity.entity_params == (EntityParams {
                health: 100,
                speed: 350,
                damage: 4,
                armor: 4,
                firespeed: 700,
                firerate: 60,
            }),
            !p.reached_end,
            p.ship_angle == 0,
            p.entity.transform.position == (Vec2i { x: 0, y: 0 }),
            p.weapon.entity.tag == Tag::PlayerWeapon,
            final(world).entities_view().len() == old(world).entities_view().len() + 2,
            final(world).score() == old(world).score(),
            final(world).offset() == old(world).offset(),
            final(world).completed() == old(world).completed(),
            final(world).difficulty() == old(world).difficulty(),
            final(world).level_view() == old(world).level_view(),
            final(world).particles_view() == old(world).particles_view(),
    {
        let mut player_weapon = Weapon::new(EntityName::PlayerWeapon, Tag::PlayerWeapon, world);
        player_weapon.init();
        let mut entity = Entity::new(EntityName::Player, Tag::Player, world);
        entity.entity_params = EntitySettings::player_settings();
        Player { entity, weapon: player_weapon, reached_end: false, ship_angle: 0 }
    }

    /// Gives the ship its starting shape and place: the logical fallback
    /// size of sixty units, shifted to the window's centre.
    pub fn init(&mut self, world: &mut World)
        requires
            old(self).wf(),
            old(world).wf(),
            -COORD_LIMIT / 2 <= old(self).entity.transform.position.x <= COORD_LIMIT / 2,
            -COORD_LIMIT / 2 <= old(self).entity.transform.position.y <= COORD_LIMIT / 2,
        ensures
            final(self).wf(),
            final(world).wf(),
            final(self).entity.transform.position == (Vec2i {
                x: (old(self).entity.transform.position.x + GAME_SIZE_X / 2) as i64,
                y: (old(self).entity.transform.position.y + GAME_SIZE_Y / 2) as i64,
            }),
            final(self).entity.transform.size == (Vec2i {
                x: ((60 * SUBUNIT) as i64),
                y: ((60 * SUBUNIT) as i64),
            }),
            final(self).entity.id == old(self).entity.id,
            final(self).entity.entity_params == old(self).entity.entity_params,
            final(world).entities_view() == old(world).entities_view(),
            final(world).actives_view() == old(world).actives_view(),
            final(world).score() == old(world).score(),
            final(world).offset() == old(world).offset(),
            final(world).completed() == old(world).completed(),
            final(world).difficulty() == old(world).difficulty(),
            final(world).level_view() == old(world).level_view(),
            final(world).particles_view() == old(world).particles_view(),
    {
        let _ = world;
        self.entity.transform.set_size(Vec2i { x: 60 * SUBUNIT, y: 60 * SUBUNIT });
        let position = Vec2i {
            x: self.entity.transform.position.x + GAME_SIZE_X / 2,
            y: self.entity.transform.position.y + GAME_SIZE_Y / 2,
        };
        self.entity.transform.set_position(position);
    }

    /// Tries one held-key move of `delta`: the move is taken exactly when
    /// the moved rectangle stays in the scrolled window and meets no wall.
    fn try_move(&mut self, delta: Vec2i, offset: i64, walls: &Vec<Rect>) -> (moved: bool)
        requires
            old(self).wf(),
            -COORD_LIMIT <= old(self).entity.transform.position.x + delta.x <= COORD_LIMIT,
            -COORD_LIMIT <= old(self).entity.transform.position.y + delta.y <= COORD_LIMIT,
        ensures
            final(self).wf(),
            moved == move_allowed(
                old(self).entity.transform,
                Vec2i {
                    x: (old(self).entity.transform.position.x + delta.x) as i64,
                    y: (old(self).entity.transform.position.y + delta.y) as i64,
                },
                offset as int,
                walls@,
            ),
            moved ==> final(self).entity.transform == positioned(
                old(self).entity.transform,
                Vec2i {
                    x: (old(self).entity.transform.position.x + delta.x) as i64,
                    y: (old(self).entity.transform.position.y + delta.y) as i64,
                },
            ),
            !moved ==> *final(self) == *old(self),
            final(self).entity == (Entity {
                transform: final(self).entity.transform,
                ..old(self).entity
            }),
            final(self).weapon == old(self).weapon,
            final(self).reached_end == old(self).reached_end,
            final(self).ship_angle == old(self).ship_angle,
    {
        let mut updated_transform = self.entity.transform;
        let new_position = Vec2i {
            x: self.entity.transform.position.x + delta.x,
            y: self.entity.transform.position.y + delta.y,
        };
        updated_transform.set_position(new_position);
        if !resolve_windowborder(updated_transform.rect, offset) && !crate::collision::walls_overlap(
            updated_transform.rect,
            walls,
        ) {
            self.entity.transform = updated_transform;
            true
        } else {
            false
        }
    }

    /// Steers the banking angle toward level flight, or toward a bank of
    /// twenty-five degrees while a vertical key is held.
    pub fn update_ship_visuals(&mut self, input: &PlayerInput, dt: i64)
        requires
            old(self).wf(),
            0 <= dt <= DT_LIMIT,
        ensures
            final(self).wf(),
            final(self).entity == old(self).entity,
            final(self).weapon == old(self).weapon,
            final(self).reached_end == old(self).reached_end,
    {
        let rate = if 350 * dt > 60_000 {
            60_000
        } else {
            350 * dt
        };
        if input.down {
            if self.ship_angle < 25_000 {
                let next = self.ship_angle + rate;
                self.ship_angle = if next > 25_000 {
                    25_000
                } else {
                    next
                };
            }
        } else if input.up {
            if self.ship_angle > -25_000 {
                let next = self.ship_angle - rate;
                self.ship_angle = if next < -25_000 {
                    -25_000
                } else {
                    next
                };
            }
        } else {
            if self.ship_angle < 0 {
                let next = self.ship_angle + rate;
                self.ship_angle = if next > 0 {
                    0
                } else {
                    next
                };
            } else if self.ship_angle > 0 {
                let next = self.ship_angle - rate;
                self.ship_angle = if next < 0 {
                    0
                } else {
                    next
                };
            }
        }
    }

    /// One player frame.  Having reached the level end, the ship only
    /// rides the scroll and flags the level completed.  Otherwise each
    /// held key proposes a move at the ship's speed, each taken only if
    /// the moved rectangle stays in the scrolled window and off the
    /// blocking walls (up, down, left, right, in that order); the forced
    /// scroll then carries the ship right unless a wall blocks the probe
    /// ahead, and a ship probing past the death zone loses all health.
    /// The ship's record is written back to the registry.
    #[verifier::rlimit(100)]
    #[verifier::spinoff_prover]
    pub fn update(&mut self, world: &mut World, input: &PlayerInput, walls: &Vec<Rect>, dt: i64)
        requires
            old(self).wf(),
            old(world).wf(),
            0 <= dt <= DT_LIMIT,
            old(self).entity.id < old(world).entities_view().len(),
            -COORD_LIMIT / 2 <= old(self).entity.transform.position.x <= COORD_LIMIT / 2,
            -COORD_LIMIT / 2 <= old(self).entity.transform.position.y <= COORD_LIMIT / 2,
            (old(self).entity.entity_params.speed * 3 + LEVEL_SPEED) * dt <= COORD_LIMIT / 4,
            input.pointer.in_range(),
        ensures
            final(self).wf(),
            final(world).wf(),
            final(self).entity.id == old(self).entity.id,
            final(world).entities_view().len() == old(world).entities_view().len(),
            final(world).score() == old(world).score(),
            final(world).offset() == old(world).offset(),
            final(world).difficulty() == old(world).difficulty(),
            final(world).level_view() == old(world).level_view(),
            final(world).particles_view() == old(world).particles_view(),
            old(self).reached_end ==> {
                &&& final(world).completed()
                &&& final(self).entity.transform.position.x == old(self).entity.transform.position.x + LEVEL_SPEED * dt
                &&& final(self).entity.transform.position.y == old(self).entity.transform.position.y
                &&& final(world).entities_view() == old(world).entities_view()
            },
            !old(self).reached_end ==> {
                &&& final(world).completed() == old(world).completed()
                &&& final(self).entity.transform == after_moves(
                    old(self).entity.transform,
                    *input,
                    old(world).offset() as int,
                    walls@,
                    old(self).entity.entity_params.speed as int,
                    dt as int,
                )
                &&& final(self).entity.entity_params.health == (if outside_deathzone(
                    scroll_probe(
                        after_keys(
                            old(self).entity.transform,
                            *input,
                            old(world).offset() as int,
                            walls@,
                            old(self).entity.entity_params.speed as int,
                            dt as int,
                        ),
                        old(self).entity.entity_params.speed as int,
                        dt as int,
                    ),
                    old(world).offset() as int,
                ) {
                    0int
                } else {
                    old(self).entity.entity_params.health as int
                })
                &&& final(self).entity.hit_feedback_timer == (if old(self).entity.hit_feedback_timer > 0 {
                    old(self).entity.hit_feedback_timer - dt
                } else {
                    old(self).entity.hit_feedback_timer as int
                })
                &&& final(self).reached_end == old(self).reached_end
                &&& final(world).entities_view() == old(world).entities_view().update(
                    old(self).entity.id as int,
                    final(self).entity,
                )
            },
    {
        if self.reached_end {
            world.set_level_completed(true);
            let position = Vec2i {
                x: self.entity.transform.position.x + LEVEL_SPEED * dt,
                y: self.entity.transform.position.y,
            };
            self.entity.transform.set_position(position);
            self.update_ship_visuals(input, dt);
            self.weapon.set_parent(Some(self.entity));
            self.weapon.update(world, input.pointer);
            return ;
        }
        self.entity.hit_cooldown(dt);
        let speed = self.entity.entity_params.speed;
        proof {
            let ghost sp = self.entity.entity_params.speed as int;
            assert(0 <= sp * dt && sp * dt <= (sp * 3 + LEVEL_SPEED) * dt && 0 <= (sp * 3) * dt
                && (sp * 3) * dt <= (sp * 3 + LEVEL_SPEED) * dt && sp * 3 * dt == (sp * 3) * dt
                && 0 <= LEVEL_SPEED * dt <= (sp * 3 + LEVEL_SPEED) * dt) by (nonlinear_arith)
                requires
                    0 <= sp,
                    0 <= dt,
            ;
        }
        let step = speed * dt;
        let offset = world.get_level_offset();
        let ghost t0 = self.entity.transform;
        if input.up {
            let _ = self.try_move(Vec2i { x: 0, y: -step }, offset, walls);
        }
        let ghost t1 = if input.up {
            try_step(t0, 0, -((speed * dt) as int), offset as int, walls@)
        } else {
            t0
        };
        proof {
            assert(self.entity.transform == t1);
        }
        if input.down {
            let _ = self.try_move(Vec2i { x: 0, y: step }, offset, walls);
        }
        let ghost t2 = if input.down {
            try_step(t1, 0, (speed * dt) as int, offset as int, walls@)
        } else {
            t1
        };
        proof {
            assert(self.entity.transform == t2);
        }
        if input.left {
            let _ = self.try_move(Vec2i { x: -step, y: 0 }, offset, walls);
        }
        let ghost t3 = if input.left {
            try_step(t2, -((speed * dt) as int), 0, offset as int, walls@)
        } else {
            t2
        };
        proof {
            assert(self.entity.transform == t3);
        }
        if input.right {
            let _ = self.try_move(Vec2i { x: step, y: 0 }, offset, walls);
        }
        let ghost t4 = if input.right {
            try_step(t3, (speed * dt) as int, 0, offset as int, walls@)
        } else {
            t3
        };
        proof {
            assert(self.entity.transform == t4);
            assert(t4 == after_keys(
                t0,
                *input,
                offset as int,
                walls@,
                old(self).entity.entity_params.speed as int,
                dt as int,
            ));
        }
        // the forced scroll: probe three ship-speeds ahead for walls
        let mut probe = self.entity.transform;
        let probe_position = Vec2i {
            x: self.entity.transform.position.x + speed * 3 * dt,
            y: self.entity.transform.position.y,
        };
        probe.set_position(probe_position);
        proof {
            assert(probe.rect == scroll_probe(
                t4,
                old(self).entity.entity_params.speed as int,
                dt as int,
            ));
        }
        if !crate::collision::walls_overlap(probe.rect, walls) {
            let position = Vec2i {
                x: self.entity.transform.position.x + LEVEL_SPEED * dt,
                y: self.entity.transform.position.y,
            };
            self.entity.transform.set_position(position);
        }
        proof {
            assert(self.entity.transform == after_moves(
                t0,
                *input,
                offset as int,
                walls@,
                old(self).entity.entity_params.speed as int,
                dt as int,
            ));
        }
        if resolve_deathzone(probe.rect, offset) {
            self.entity.entity_params.health = 0;
        }
        self.update_ship_visuals(input, dt);
        self.weapon.set_parent(Some(self.entity));
        self.weapon.update(world, input.pointer);
        world.set_entity(&self.entity);
    }

    /// Pulls the trigger while the fire control is held: the weapon takes
    /// the ship's current stats and fires through the missile pool.
    pub fn shoot(&mut self, misslepool: &mut MisslePool, world: &mut World, input: &PlayerInput, dt: i64) -> (r: ShotOutcome)
        requires
            old(self).wf(),
            old(world).wf(),
            old(misslepool).wf(old(world).entities_view().len() as int),
            0 <= dt <= DT_LIMIT,
        ensures
            final(self).wf(),
            final(world).wf(),
            final(misslepool).wf(final(world).entities_view().len() as int),
            final(world).entities_view().len() == old(world).entities_view().len(),
            final(world).score() == old(world).score(),
            final(world).offset() == old(world).offset(),
            final(world).completed() == old(world).completed(),
            final(world).difficulty() == old(world).difficulty(),
            final(world).level_view() == old(world).level_view(),
            final(world).particles_view() == old(world).particles_view(),
            final(misslepool).pool_view().len() == old(misslepool).pool_view().len(),
            final(self).entity == old(self).entity,
            forall|i: int|
                0 <= i < old(misslepool).pool_view().len() && (
                #[trigger] old(misslepool).pool_view()[i]).entity.is_active ==> final(misslepool).pool_view()[i] == old(misslepool).pool_view()[i],
            !input.fire ==> r == ShotOutcome::NotReady && *final(self) == *old(self) && final(misslepool).pool_view() == old(misslepool).pool_view() && final(world).entities_view() == old(world).entities_view(),
            input.fire && in_fire_range(old(self).weapon.entity.transform.position) ==> {
                &&& (r == ShotOutcome::NotReady <==> old(self).weapon.cooldown_t > 0)
                &&& final(self).weapon.cooldown_t == (if old(self).weapon.cooldown_t <= 0 {
                    WEAPON_COOLDOWN as int
                } else {
                    old(self).weapon.cooldown_t - old(self).entity.entity_params.firerate * dt
                })
            },
            input.fire && !in_fire_range(old(self).weapon.entity.transform.position) ==> r
                == ShotOutcome::NotReady && final(misslepool).pool_view() == old(misslepool).pool_view() && final(self).weapon.cooldown_t == old(self).weapon.cooldown_t,
    {
        if input.fire {
            self.weapon.set_stats(
                self.entity.entity_params.damage,
                self.entity.entity_params.firerate,
                self.entity.entity_params.firespeed,
            );
            let within = self.weapon.entity.transform.position.x >= -COORD_LIMIT + 100 * SUBUNIT
                && self.weapon.entity.transform.position.x <= COORD_LIMIT - 100 * SUBUNIT
                && self.weapon.entity.transform.position.y >= -COORD_LIMIT + 100 * SUBUNIT
                && self.weapon.entity.transform.position.y <= COORD_LIMIT - 100 * SUBUNIT;
            if within {
                self.weapon.shoot(misslepool, world, dt)
            } else {
                ShotOutcome::NotReady
            }
        } else {
            ShotOutcome::NotReady
        }
    }

    /// The ship after one collision resolution: an inactive entity is
    /// skipped entirely; enemies, enemy missiles and trap walls land one
    /// hit each; the level-end marker raises the reached-end flag; every
    /// other pairing passes through.
    pub open spec fn collide_spec(self, e: Entity) -> Player {
        if !e.is_active || !rects_overlap(self.entity.transform.rect, e.transform.rect) {
            self
        } else if e.tag == Tag::Enemy || e.tag == Tag::EnemyMissle || e.tag == Tag::TrapWall {
            Player { entity: self.entity.hit_spec(), ..self }
        } else if e.tag == Tag::End {
            Player { reached_end: true, ..self }
        } else {
            self
        }
    }

    /// The ship after resolving against the first `k` registry records,
    /// in order.
    pub open spec fn scan_prefix(self, entities: Seq<Entity>, k: int) -> Player
        decreases k,
    {
        if k <= 0 || k > entities.len() {
            self
        } else {
            self.scan_prefix(entities, k - 1).collide_spec(entities[k - 1])
        }
    }

    /// Resolves the ship against one entity, exactly as `collide_spec`
    /// says.
    pub fn on_collision(&mut self, entity: &Entity)
        ensures
            *final(self) == old(self).collide_spec(*entity),
            final(self).entity.id == old(self).entity.id,
            final(self).entity.transform == old(self).entity.transform,
            final(self).weapon == old(self).weapon,
            final(self).ship_angle == old(self).ship_angle,
            old(self).reached_end ==> final(self).reached_end,
            old(self).wf() ==> final(self).wf(),
    {
        if !entity.is_active {
            return ;
        }
        if !resolve_intersection(self.entity.transform.rect, entity.transform.rect) {
            return ;
        }
        match entity.tag {
            Tag::Enemy => {
                let params = entity.entity_params;
                self.entity.hit(&params);
            },
            Tag::EnemyMissle => {
                let params = entity.entity_params;
                self.entity.hit(&params);
            },
            Tag::End => {
                self.reached_end = true;
            },
            Tag::TrapWall => {
                let params = entity.entity_params;
                self.entity.hit(&params);
            },
            _ => {},
        }
    }

    /// The collision pass: the ship is resolved against every registry
    /// record, in registry order.  Its transform never changes here, and
    /// the reached-end flag never goes back down.
    pub fn late_update(&mut self, world: &World)
        requires
            world.wf(),
        ensures
            *final(self) == old(self).scan_prefix(
                world.entities_view(),
                world.entities_view().len() as int,
            ),
            final(self).entity.id == old(self).entity.id,
            final(self).entity.transform == old(self).entity.transform,
            final(self).weapon == old(self).weapon,
            old(self).reached_end ==> final(self).reached_end,
            old(self).wf() ==> final(self).wf(),
    {
        let entities = world.get_entities();
        let n = entities.len();
        let mut k: usize = 0;
        while k < n
            invariant
                n == world.entities_view().len(),
                entities@ == world.entities_view(),
                k <= n,
                *self == old(self).scan_prefix(world.entities_view(), k as int),
                self.entity.id == old(self).entity.id,
                self.entity.transform == old(self).entity.transform,
                self.weapon == old(self).weapon,
                old(self).reached_end ==> self.reached_end,
                old(self).wf() ==> self.wf(),
                self.ship_angle == old(self).ship_angle,
            decreases n - k,
        {
            let e = entities[k];
            self.on_collision(&e);
            k = k + 1;
        }
    }
}

} // verus!
