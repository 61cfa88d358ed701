//! The level: the tile elements laid out once at load time (walls,
//! blocking walls, traps, destructibles, spawners, turrets and the
//! level-end marker), their per-frame passes, and the visibility-culled
//! wall list that bounds the collision work of each frame.
use vstd::prelude::*;
use crate::collision::{
    inside_windowborder, inside_windowborder_spec, inside_windowview, inside_windowview_spec,
    resolve_intersection,
};
use crate::enemypool::EnemyPool;
use crate::enemy_spawner::EnemySpawner;
use crate::entity::{Entity, EntityName, EntityParams, Tag};
use crate::entityparam_settings::EntitySettings;
use crate::geom::{rects_overlap, Rect, Transform, Vec2i};
use crate::missle::MisslePool;
use crate::weapon::Weapon;
use crate::world::World;
use crate::{COORD_LIMIT, DT_LIMIT, SUBUNIT};

verus! {

/// The edge of one level tile, in fixed-point steps (45 units).
pub const LEVEL_TILE_SCALE: i64 = 45_000;

/// The largest tile coordinate a level image may use.
pub const TILE_LIMIT: i64 = 20_000;

/// A purely decorative wall tile: a transform and a sprite-sheet offset,
/// no registry entity.
#[derive(Clone, Copy, PartialEq, Eq, Structural, Debug)]
pub struct WallElement {
    pub transform: Transform,
    pub tilesheet_offset: Vec2i,
    pub in_view: bool,
}

impl WallElement {
    /// A fresh tile with the default transform.
    pub fn new(world: &World) -> (w: WallElement)
        ensures
            w.transform.wf(),
            !w.in_view,
    {
        let _ = world;
        WallElement {
            transform: Transform::default(),
            tilesheet_offset: Vec2i { x: 0, y: 0 },
            in_view: false,
        }
    }

    /// Picks which sprite-sheet tile the renderer draws.
    pub fn set_sprite(&mut self, tilesheet_offset: Vec2i)
        ensures
            *final(self) == (WallElement { tilesheet_offset, ..*old(self) }),
    {
        self.tilesheet_offset = tilesheet_offset;
    }

    /// Recomputes the view-window flag for this frame.
    pub fn late_update(&mut self, world: &World)
        ensures
            *final(self) == (WallElement {
                in_view: inside_windowview_spec(old(self).transform.rect, world.offset() as int),
                ..*old(self)
            }),
    {
        self.in_view = inside_windowview(self.transform.rect, world.get_level_offset());
    }
}

/// The level-end marker: crossing it completes the level.
#[derive(Clone, Copy, PartialEq, Eq, Structural, Debug)]
pub struct LevelEndElement {
    pub entity: Entity,
}

impl LevelEndElement {
    /// Registers the marker's entity; it starts flagged in view.
    pub fn new(world: &mut World) -> (e: LevelEndElement)
        requires
            old(world).wf(),
            old(world).entities_view().len() < usize::MAX,
        ensures
            final(world).wf(),
            e.entity.wf(),
            e.entity.tag == Tag::End,
            e.entity.in_view,
            e.entity.transform.scale == 1000,
            e.entity.id == old(world).entities_view().len(),
            final(world).entities_view().len() == old(world).entities_view().len() + 1,
            final(world).score() == old(world).score(),
            final(world).offset() == old(world).offset(),
            final(world).completed() == old(world).completed(),
            final(world).difficulty() == old(world).difficulty(),
            final(world).level_view() == old(world).level_view(),
            final(world).particles_view() == old(world).particles_view(),
    {
        let mut entity = Entity::new(EntityName::End, Tag::End, world);
        entity.in_view = true;
        LevelEndElement { entity }
    }

    /// Moves the marker.
    pub fn place_endline(&mut self, position: Vec2i)
        requires
            old(self).entity.wf(),
            position.in_range(),
        ensures
            final(self).entity.wf(),
            final(self).entity.transform.position == position,
            final(self).entity.id == old(self).entity.id,
    {
        self.entity.transform.set_position(position);
    }

    /// Whether the scrolled window has caught the marker up.
    pub fn reached_end(&self, progress: i64) -> (r: bool)
        ensures
            r == inside_windowborder_spec(self.entity.transform.rect, progress as int, 0),
    {
        inside_windowborder(self.entity.transform.rect, progress, 0)
    }
}

/// A solid wall tile that blocks movement.
#[derive(Clone, Copy, PartialEq, Eq, Structural, Debug)]
pub struct BlockingWallElement {
    pub entity: Entity,
}

impl BlockingWallElement {
    /// Registers the wall's entity.
    pub fn new(world: &mut World) -> (e: BlockingWallElement)
        requires
            old(world).wf(),
            old(world).entities_view().len() < usize::MAX,
        ensures
            final(world).wf(),
            e.entity.wf(),
            e.entity.tag == Tag::BlockingWall,
            e.entity.id == old(world).entities_view().len(),
            final(world).entities_view().len() == old(world).entities_view().len() + 1,
            final(world).score() == old(world).score(),
            final(world).offset() == old(world).offset(),
            final(world).completed() == old(world).completed(),
            final(world).difficulty() == old(world).difficulty(),
            final(world).level_view() == old(world).level_view(),
            final(world).particles_view() == old(world).particles_view(),
    {
        let entity = Entity::new(EntityName::BlockingWall, Tag::BlockingWall, world);
        BlockingWallElement { entity }
    }

    /// Recomputes the view-window flag for this frame.
    pub fn late_update(&mut self, world: &World)
        ensures
            *final(self) == (BlockingWallElement {
                entity: Entity {
                    in_view: inside_windowview_spec(
                        old(self).entity.transform.rect,
                        world.offset() as int,
                    ),
                    ..old(self).entity
                },
            }),
    {
        self.entity.in_view = inside_windowview(
            self.entity.transform.rect,
            world.get_level_offset(),
        );
    }
}

/// A trap tile: touching it hurts the player.
#[derive(Clone, Copy, PartialEq, Eq, Structural, Debug)]
pub struct TrapWallElement {
    pub entity: Entity,
}

impl TrapWallElement {
    /// Registers the trap's entity.
    pub fn new(world: &mut World) -> (e: TrapWallElement)
        requires
            old(world).wf(),
            old(world).entities_view().len() < usize::MAX,
        ensures
            final(world).wf(),
            e.entity.wf(),
            e.entity.tag == Tag::TrapWall,
            e.entity.id == old(world).entities_view().len(),
            final(world).entities_view().len() == old(world).entities_view().len() + 1,
            final(world).score() == old(world).score(),
            final(world).offset() == old(world).offset(),
            final(world).completed() == old(world).completed(),
            final(world).difficulty() == old(world).difficulty(),
            final(world).level_view() == old(world).level_view(),
            final(world).particles_view() == old(world).particles_view(),
    {
        let entity = Entity::new(EntityName::Trap, Tag::TrapWall, world);
        TrapWallElement { entity }
    }

    /// Applies the trap stat table and writes the record back.
    pub fn init(&mut self, world: &mut World)
        requires
            old(self).entity.wf(),
            old(world).wf(),
        ensures
            final(self).entity.wf(),
            final(world).wf(),
            final(self).entity.id == old(self).entity.id,
            final(self).entity.entity_params == (EntityParams {
                health: (10 + crate::entityparam_settings::eff_difficulty(*old(world))) as i64,
                speed: 0,
                damage: (2 + crate::entityparam_settings::eff_difficulty(*old(world))) as i64,
                armor: (3 + crate::entityparam_settings::eff_difficulty(*old(world)) / 2) as i64,
                firespeed: 0,
                firerate: 0,
            }),
            final(world).entities_view().len() == old(world).entities_view().len(),
            final(world).score() == old(world).score(),
            final(world).offset() == old(world).offset(),
            final(world).completed() == old(world).completed(),
            final(world).difficulty() == old(world).difficulty(),
            final(world).level_view() == old(world).level_view(),
            final(world).particles_view() == old(world).particles_view(),
    {
        self.entity.entity_params = EntitySettings::trap_settings(world);
        world.set_entity(&self.entity);
    }

    /// Recomputes the view-window flag for this frame.
    pub fn late_update(&mut self, world: &World)
        ensures
            *final(self) == (TrapWallElement {
                entity: Entity {
                    in_view: inside_windowview_spec(
                        old(self).entity.transform.rect,
                        world.offset() as int,
                    ),
                    ..old(self).entity
                },
            }),
    {
        self.entity.in_view = inside_windowview(
            self.entity.transform.rect,
            world.get_level_offset(),
        );
    }
}

/// A destructible tile: player missiles wear it down, and at zero health
/// it disappears without any award.
#[derive(Clone, Copy, PartialEq, Eq, Structural, Debug)]
pub struct DestructibleElement {
    pub entity: Entity,
}

impl DestructibleElement {
    /// Registers the tile's entity with the destructible stat table.
    pub fn new(world: &mut World) -> (e: DestructibleElement)
        requires
            old(world).wf(),
            old(world).entities_view().len() < usize::MAX,
        ensures
            final(world).wf(),
            e.entity.wf(),
            e.entity.tag == Tag::Destructible,
            e.entity.id == old(world).entities_view().len(),
            final(world).entities_view().len() == old(world).entities_view().len() + 1,
            final(world).score() == old(world).score(),
            final(world).offset() == old(world).offset(),
            final(world).completed() == old(world).completed(),
            final(world).difficulty() == old(world).difficulty(),
            final(world).level_view() == old(world).level_view(),
            final(world).particles_view() == old(world).particles_view(),
    {
        let mut entity = Entity::new(EntityName::DestructibleWall, Tag::Destructible, world);
        entity.entity_params = EntitySettings::destructible_settings(world);
        entity.hit_feedback_timer = 1;
        DestructibleElement { entity }
    }

    /// One hit from a qualifying entity.
    pub fn on_collision(&mut self, entity: &Entity)
        ensures
            final(self).entity.id == old(self).entity.id,
            final(self).entity.transform == old(self).entity.transform,
            final(self).entity.is_active == old(self).entity.is_active,
            *final(self) == if rects_overlap(old(self).entity.transform.rect, entity.transform.rect)
                && entity.tag == Tag::PlayerMissle {
                DestructibleElement { entity: old(self).entity.hit_spec() }
            } else {
                *old(self)
            },
            old(self).entity.wf() ==> final(self).entity.wf(),
    {
        if !resolve_intersection(self.entity.transform.rect, entity.transform.rect) {
            return ;
        }
        match entity.tag {
            Tag::PlayerMissle => {
                let params = entity.entity_params;
                self.entity.hit(&params);
            },
            _ => {},
        }
    }

    /// The per-frame pass: an active tile runs its hit-feedback timer down
    /// and is resolved against the frame's active snapshot.
    pub fn update(&mut self, world: &World, dt: i64)
        requires
            old(self).entity.wf(),
            world.wf(),
            0 <= dt <= DT_LIMIT,
        ensures
            final(self).entity.wf(),
            final(self).entity.id == old(self).entity.id,
            final(self).entity.transform == old(self).entity.transform,
            final(self).entity.is_active == old(self).entity.is_active,
            !old(self).entity.is_active ==> *final(self) == *old(self),
    {
        if !self.entity.is_active {
            return ;
        }
        self.entity.hit_cooldown(dt);
        let actives = world.get_actives();
        let n = actives.len();
        let mut k: usize = 0;
        while k < n
            invariant
                n == world.actives_view().len(),
                actives@ == world.actives_view(),
                k <= n,
                self.entity.wf(),
                self.entity.id == old(self).entity.id,
                self.entity.transform == old(self).entity.transform,
                self.entity.is_active == old(self).entity.is_active,
            decreases n - k,
        {
            let e = actives[k];
            self.on_collision(&e);
            k = k + 1;
        }
    }

    /// The cleanup pass: a tile scrolled into the view window activates; a
    /// destroyed tile deactivates, resets to one health and the zero
    /// transform, and its record is written back.
    pub fn late_update(&mut self, world: &mut World)
        requires
            old(self).entity.wf(),
            old(world).wf(),
        ensures
            final(self).entity.wf(),
            final(world).wf(),
            final(self).entity.id == old(self).entity.id,
            final(world).entities_view().len() == old(world).entities_view().len(),
            final(world).score() == old(world).score(),
            final(world).offset() == old(world).offset(),
            final(world).completed() == old(world).completed(),
            final(world).difficulty() == old(world).difficulty(),
            final(world).level_view() == old(world).level_view(),
            final(world).particles_view() == old(world).particles_view(),
    {
        if inside_windowview(self.entity.transform.rect, world.get_level_offset()) {
            self.entity.is_active = true;
            self.entity.in_view = true;
        }
        if !self.entity.is_active {
            return ;
        }
        if self.entity.entity_params.health <= 0 {
            self.entity.is_active = false;
            self.entity.entity_params.health = 1;
            self.entity.transform = Transform::zero();
            world.set_entity(&self.entity);
            return ;
        }
        self.entity.in_view = inside_windowview(
            self.entity.transform.rect,
            world.get_level_offset(),
        );
    }
}

/// A spawner tile is live while it stands in the window extended by two
/// hundred units of slack and one hundred to the right.
pub open spec fn spawner_tile_live(e: Entity, offset: int) -> bool {
    crate::collision::inside_windowborder_extended_sides_spec(
        e.transform.rect,
        offset,
        200 * SUBUNIT,
        Vec2i { x: ((200 * SUBUNIT) as i64), y: ((100 * SUBUNIT) as i64) },
    )
}

/// A live spawner tile only ticks its countdown inside the wider window
/// with six hundred units of slack to the right.
pub open spec fn spawner_tile_armed_window(e: Entity, offset: int) -> bool {
    crate::collision::inside_windowborder_extended_sides_spec(
        e.transform.rect,
        offset,
        200 * SUBUNIT,
        Vec2i { x: ((200 * SUBUNIT) as i64), y: ((600 * SUBUNIT) as i64) },
    )
}

/// A spawner tile: a registry entity wrapping an `EnemySpawner`, destroyed
/// by player missiles.
#[derive(Clone, Copy, PartialEq, Eq, Structural, Debug)]
pub struct EnemySpawnerElement {
    pub entity: Entity,
    pub spawner: EnemySpawner,
}

impl EnemySpawnerElement {
    /// Registers the tile's entity (spawner stat table) and its spawner,
    /// configured for `count` enemies of kind `spawner_type`.
    pub fn new(count: usize, spawner_type: usize, world: &mut World) -> (e: EnemySpawnerElement)
        requires
            old(world).wf(),
            old(world).entities_view().len() < usize::MAX - 1,
        ensures
            final(world).wf(),
            e.entity.wf(),
            e.spawner.wf(),
            e.entity.tag == Tag::EnemySpawner,
            e.spawner.spawn_count == count,
            e.spawner.spawned == 0,
            final(world).entities_view().len() == old(world).entities_view().len() + 2,
            final(world).score() == old(world).score(),
            final(world).offset() == old(world).offset(),
            final(world).completed() == old(world).completed(),
            final(world).difficulty() == old(world).difficulty(),
            final(world).level_view() == old(world).level_view(),
            final(world).particles_view() == old(world).particles_view(),
    {
        let mut entity = Entity::new(EntityName::EnemySpawner, Tag::EnemySpawner, world);
        entity.entity_params = EntitySettings::spawner_settings(world);
        entity.hit_feedback_timer = 1;
        let spawner = EnemySpawner::create_spawner(count, spawner_type, world);
        EnemySpawnerElement { entity, spawner }
    }

    /// Gives the tile its starting shape: the logical fallback size of
    /// sixty units.
    pub fn init(&mut self, world: &mut World)
        requires
            old(self).entity.wf(),
            old(world).wf(),
        ensures
            final(self).entity.wf(),
            final(world).wf(),
            final(self).entity.id == old(self).entity.id,
            final(self).spawner == old(self).spawner,
            final(self).entity.transform.size == (Vec2i {
                x: ((60 * SUBUNIT) as i64),
                y: ((60 * SUBUNIT) as i64),
            }),
            final(world).entities_view() == old(world).entities_view(),
            final(world).score() == old(world).score(),
            final(world).offset() == old(world).offset(),
            final(world).completed() == old(world).completed(),
            final(world).difficulty() == old(world).difficulty(),
            final(world).level_view() == old(world).level_view(),
            final(world).particles_view() == old(world).particles_view(),
    {
        let _ = world;
        self.entity.transform.set_size(Vec2i { x: 60 * SUBUNIT, y: 60 * SUBUNIT });
    }

    /// The spawning pass: the tile is live only inside the extended
    /// window; a live, undestroyed tile ticks its spawner, which issues at
    /// most one pool request this frame.
    pub fn update(&mut self, enemypool: &mut EnemyPool, world: &mut World, dt: i64)
        requires
            old(self).entity.wf(),
            old(self).spawner.wf(),
            old(world).wf(),
            old(enemypool).wf(old(world).entities_view().len() as int),
            0 <= dt <= DT_LIMIT,
            old(world).entities_view().len() < usize::MAX - 1,
        ensures
            final(self).entity.wf(),
            final(self).spawner.wf(),
            final(world).wf(),
            final(enemypool).wf(final(world).entities_view().len() as int),
            final(enemypool).pool_view().len() == old(enemypool).pool_view().len(),
            forall|i: int|
                0 <= i < old(enemypool).pool_view().len() && (
                #[trigger] old(enemypool).pool_view()[i]).entity.is_active ==> final(enemypool).pool_view()[i] == old(enemypool).pool_view()[i],
            final(self).entity.id == old(self).entity.id,
            final(self).entity.transform == old(self).entity.transform,
            final(self).entity.is_active == spawner_tile_live(
                old(self).entity,
                old(world).offset() as int,
            ),
            final(self).entity.in_view == spawner_tile_live(
                old(self).entity,
                old(world).offset() as int,
            ),
            old(world).entities_view().len() <= final(world).entities_view().len() <= old(world).entities_view().len() + 1,
            final(self).spawner.spawn_count == old(self).spawner.spawn_count,
            old(self).spawner.spawned <= final(self).spawner.spawned <= old(self).spawner.spawned
                + 1,
            final(self).spawner.spawned <= final(self).spawner.spawn_count,
            final(self).spawner.spawned == old(self).spawner.spawned + (if spawner_tile_live(
                old(self).entity,
                old(world).offset() as int,
            ) && spawner_tile_armed_window(old(self).entity, old(world).offset() as int) && old(self).entity.entity_params.health > 0 && old(self).spawner.spawned < old(self).spawner.spawn_count && old(self).spawner.time <= 0 {
                1int
            } else {
                0int
            }),
            !(spawner_tile_live(old(self).entity, old(world).offset() as int)
                && spawner_tile_armed_window(old(self).entity, old(world).offset() as int) && old(self).entity.entity_params.health > 0) ==> final(self).spawner == old(self).spawner
                && final(enemypool).pool_view() == old(enemypool).pool_view(),
            old(self).spawner.spawned >= old(self).spawner.spawn_count ==> final(self).spawner.spawned == old(self).spawner.spawned && final(enemypool).pool_view() == old(enemypool).pool_view(),
            final(world).score() == old(world).score(),
            final(world).offset() == old(world).offset(),
            final(world).completed() == old(world).completed(),
            final(world).difficulty() == old(world).difficulty(),
            final(world).level_view() == old(world).level_view(),
            final(world).particles_view() == old(world).particles_view(),
    {
        let offset = world.get_level_offset();
        let live = inside_windowborder_extended(
            self.entity.transform.rect,
            offset,
            200 * SUBUNIT,
            100 * SUBUNIT,
        );
        if live {
            self.entity.in_view = true;
            self.entity.is_active = true;
        } else {
            self.entity.in_view = false;
            self.entity.is_active = false;
        }
        if !self.entity.is_active {
            return ;
        }
        let wide = inside_windowborder_extended(
            self.entity.transform.rect,
            offset,
            200 * SUBUNIT,
            600 * SUBUNIT,
        );
        if wide && self.entity.entity_params.health > 0 {
            let _ = self.spawner.update(enemypool, world, dt);
        }
    }

    /// One hit from a qualifying entity.
    pub fn on_collision(&mut self, entity: &Entity)
        ensures
            final(self).entity.id == old(self).entity.id,
            final(self).entity.transform == old(self).entity.transform,
            final(self).spawner == old(self).spawner,
            old(self).entity.wf() ==> final(self).entity.wf(),
    {
        if !resolve_intersection(self.entity.transform.rect, entity.transform.rect) {
            return ;
        }
        match entity.tag {
            Tag::PlayerMissle => {
                let params = entity.entity_params;
                self.entity.hit(&params);
            },
            _ => {},
        }
    }

    /// The cleanup pass: a destroyed tile deactivates, resets to one
    /// health and the zero transform, and its record is written back;
    /// otherwise the hit-feedback timer runs down and the tile is resolved
    /// against the frame's active snapshot.
    pub fn late_update(&mut self, world: &mut World, dt: i64)
        requires
            old(self).entity.wf(),
            old(self).spawner.wf(),
            old(world).wf(),
            0 <= dt <= DT_LIMIT,
        ensures
            final(self).entity.wf(),
            final(self).spawner == old(self).spawner,
            final(world).wf(),
            final(self).entity.id == old(self).entity.id,
            final(world).entities_view().len() == old(world).entities_view().len(),
            final(world).score() == old(world).score(),
            final(world).offset() == old(world).offset(),
            final(world).completed() == old(world).completed(),
            final(world).difficulty() == old(world).difficulty(),
            final(world).level_view() == old(world).level_view(),
            final(world).particles_view() == old(world).particles_view(),
    {
        if !self.entity.is_active {
            return ;
        }
        if self.entity.entity_params.health <= 0 {
            self.entity.is_active = false;
            self.entity.entity_params.health = 1;
            self.entity.transform = Transform::zero();
            world.set_entity(&self.entity);
            return ;
        }
        self.entity.hit_cooldown(dt);
        let actives = world.get_actives();
        let n = actives.len();
        let mut k: usize = 0;
        let mut me = *self;
        while k < n
            invariant
                n == world.actives_view().len(),
                actives@ == world.actives_view(),
                k <= n,
                me.entity.wf(),
                me.entity.id == old(self).entity.id,
                me.entity.transform == self.entity.transform,
                me.spawner == self.spawner,
                self.spawner == old(self).spawner,
            decreases n - k,
        {
            let e = actives[k];
            me.on_collision(&e);
            k = k + 1;
        }
        self.entity = me.entity;
    }
}

/// `inside_windowborder_extended_sides` with symmetric slack given as two
/// scalars, as the spawner tiles use it.
fn inside_windowborder_extended(rect: Rect, offset: i64, y_slack: i64, x_right: i64) -> (r: bool)
    ensures
        r == crate::collision::inside_windowborder_extended_sides_spec(
            rect,
            offset as int,
            y_slack as int,
            Vec2i { x: ((200 * SUBUNIT) as i64), y: x_right },
        ),
{
    crate::collision::inside_windowborder_extended_sides(
        rect,
        offset,
        y_slack,
        Vec2i { x: 200 * SUBUNIT, y: x_right },
    )
}

/// A turret tile: a registry entity with an enemy-side weapon, destroyed
/// by player missiles.
#[derive(Clone, Copy, PartialEq, Eq, Structural, Debug)]
pub struct TurretElement {
    pub entity: Entity,
    pub weapon: Weapon,
}

impl TurretElement {
    /// Registers the tile's entity (turret stat table) and its weapon.
    pub fn new(world: &mut World) -> (e: TurretElement)
        requires
            old(world).wf(),
            old(world).entities_view().len() < usize::MAX - 1,
        ensures
            final(world).wf(),
            e.entity.wf(),
            e.weapon.wf(),
            e.entity.tag == Tag::Turret,
            e.weapon.entity.tag == Tag::EnemyWeapon,
            final(world).entities_view().len() == old(world).entities_view().len() + 2,
            final(world).score() == old(world).score(),
            final(world).offset() == old(world).offset(),
            final(world).completed() == old(world).completed(),
            final(world).difficulty() == old(world).difficulty(),
            final(world).level_view() == old(world).level_view(),
            final(world).particles_view() == old(world).particles_view(),
    {
        let mut entity = Entity::new(EntityName::Turret, Tag::Turret, world);
        entity.entity_params = EntitySettings::turret_settings(world);
        entity.hit_feedback_timer = 1;
        let mut weapon = Weapon::new(EntityName::TurretWeapon, Tag::EnemyWeapon, world);
        weapon.entity.entity_params = entity.entity_params;
        TurretElement { entity, weapon }
    }

    /// Prepares the weapon.
    pub fn init(&mut self, world: &mut World)
        requires
            old(self).entity.wf(),
            old(self).weapon.wf(),
            old(world).wf(),
        ensures
            final(self).entity == old(self).entity,
            final(self).weapon.wf(),
            final(world).wf(),
            final(world).entities_view() == old(world).entities_view(),
            final(world).score() == old(world).score(),
            final(world).offset() == old(world).offset(),
            final(world).completed() == old(world).completed(),
            final(world).difficulty() == old(world).difficulty(),
            final(world).level_view() == old(world).level_view(),
            final(world).particles_view() == old(world).particles_view(),
    {
        let _ = world;
        self.weapon.init();
    }

    /// Pulls the turret's trigger once.
    pub fn shoot(&mut self, misslepool: &mut MisslePool, world: &mut World, dt: i64)
        requires
            old(self).entity.wf(),
            old(self).weapon.wf(),
            old(world).wf(),
            old(misslepool).wf(old(world).entities_view().len() as int),
            0 <= dt <= DT_LIMIT,
        ensures
            final(self).entity == old(self).entity,
            final(self).weapon.wf(),
            final(world).wf(),
            final(misslepool).wf(final(world).entities_view().len() as int),
            final(misslepool).pool_view().len() == old(misslepool).pool_view().len(),
            forall|i: int|
                0 <= i < old(misslepool).pool_view().len() && (
                #[trigger] old(misslepool).pool_view()[i]).entity.is_active ==> final(misslepool).pool_view()[i] == old(misslepool).pool_view()[i],
            final(world).entities_view().len() == old(world).entities_view().len(),
            final(world).score() == old(world).score(),
            final(world).offset() == old(world).offset(),
            final(world).completed() == old(world).completed(),
            final(world).difficulty() == old(world).difficulty(),
            final(world).level_view() == old(world).level_view(),
            final(world).particles_view() == old(world).particles_view(),
    {
        let within = self.weapon.entity.transform.position.x >= -COORD_LIMIT + 100 * SUBUNIT
            && self.weapon.entity.transform.position.x <= COORD_LIMIT - 100 * SUBUNIT
            && self.weapon.entity.transform.position.y >= -COORD_LIMIT + 100 * SUBUNIT
            && self.weapon.entity.transform.position.y <= COORD_LIMIT - 100 * SUBUNIT;
        if within {
            let _ = self.weapon.shoot(misslepool, world, dt);
        }
    }

    /// One hit from a qualifying entity.
    pub fn on_collision(&mut self, entity: &Entity)
        ensures
            final(self).entity.id == old(self).entity.id,
            final(self).entity.transform == old(self).entity.transform,
            final(self).weapon == old(self).weapon,
            old(self).entity.wf() ==> final(self).entity.wf(),
    {
        if !resolve_intersection(self.entity.transform.rect, entity.transform.rect) {
            return ;
        }
        match entity.tag {
            Tag::PlayerMissle => {
                let params = entity.entity_params;
                self.entity.hit(&params);
            },
            _ => {},
        }
    }

    /// The cleanup pass: a destroyed turret deactivates, resets to one
    /// health and the zero transform; otherwise the hit-feedback timer
    /// runs down, visibility is recomputed, the turret is resolved against
    /// the registry, its weapon re-aims, and its record is written back.
    pub fn late_update(&mut self, world: &mut World, dt: i64)
        requires
            old(self).entity.wf(),
            old(self).weapon.wf(),
            old(world).wf(),
            0 <= dt <= DT_LIMIT,
        ensures
            final(self).entity.wf(),
            final(self).weapon.wf(),
            final(world).wf(),
            final(self).entity.id == old(self).entity.id,
            final(world).entities_view().len() == old(world).entities_view().len(),
            final(world).score() == old(world).score(),
            final(world).offset() == old(world).offset(),
            final(world).completed() == old(world).completed(),
            final(world).difficulty() == old(world).difficulty(),
            final(world).level_view() == old(world).level_view(),
            final(world).particles_view() == old(world).particles_view(),
    {
        if !self.entity.is_active {
            return ;
        }
        if self.entity.entity_params.health <= 0 {
            self.entity.is_active = false;
            self.entity.entity_params.health = 1;
            self.entity.transform = Transform::zero();
            world.set_entity(&self.entity);
            return ;
        }
        self.entity.hit_cooldown(dt);
        self.entity.in_view = inside_windowview(
            self.entity.transform.rect,
            world.get_level_offset(),
        );
        let entities = world.get_entities();
        let n = entities.len();
        let mut k: usize = 0;
        let mut me = *self;
        while k < n
            invariant
                n == world.entities_view().len(),
                entities@ == world.entities_view(),
                k <= n,
                me.entity.wf(),
                me.entity.id == old(self).entity.id,
                me.weapon == self.weapon,
            decreases n - k,
        {
            let e = entities[k];
            me.on_collision(&e);
            k = k + 1;
        }
        self.entity = me.entity;
        self.weapon.set_parent(Some(self.entity));
        self.weapon.update(world, Vec2i { x: 0, y: 0 });
        world.set_entity(&self.entity);
    }
}

/// The rectangles of the in-view blocking walls that also pass the view
/// test widened by their own width, scanning from index `k`.
pub open spec fn blocking_rects_from(elems: Seq<BlockingWallElement>, offset: int, k: int) -> Seq<
    Rect,
>
    decreases elems.len() - k,
{
    if k < 0 || k >= elems.len() {
        Seq::empty()
    } else {
        let rest = blocking_rects_from(elems, offset, k + 1);
        if elems[k].entity.in_view && inside_windowview_spec(
            elems[k].entity.transform.rect,
            offset + elems[k].entity.transform.rect.w,
        ) {
            seq![elems[k].entity.transform.rect] + rest
        } else {
            rest
        }
    }
}

/// The rectangles of the in-view destructible tiles inside the window
/// widened by their own size, scanning from index `k`.
pub open spec fn destructible_rects_from(
    elems: Seq<DestructibleElement>,
    offset: int,
    k: int,
) -> Seq<Rect>
    decreases elems.len() - k,
{
    if k < 0 || k >= elems.len() {
        Seq::empty()
    } else {
        let rest = destructible_rects_from(elems, offset, k + 1);
        if elems[k].entity.in_view && inside_windowborder_spec(
            elems[k].entity.transform.rect,
            offset + elems[k].entity.transform.rect.w,
            elems[k].entity.transform.rect.h as int,
        ) {
            seq![elems[k].entity.transform.rect] + rest
        } else {
            rest
        }
    }
}

/// The rectangles of the in-view turrets inside the window widened by
/// their own size, scanning from index `k`.
pub open spec fn turret_rects_from(elems: Seq<TurretElement>, offset: int, k: int) -> Seq<Rect>
    decreases elems.len() - k,
{
    if k < 0 || k >= elems.len() {
        Seq::empty()
    } else {
        let rest = turret_rects_from(elems, offset, k + 1);
        if elems[k].entity.in_view && inside_windowborder_spec(
            elems[k].entity.transform.rect,
            offset + elems[k].entity.transform.rect.w,
            elems[k].entity.transform.rect.h as int,
        ) {
            seq![elems[k].entity.transform.rect] + rest
        } else {
            rest
        }
    }
}

/// The whole culled wall list of a frame, as `get_blocking_walls` builds
/// it: blocking walls, then destructibles, then turrets.
pub open spec fn culled_walls_spec(l: Level, offset: int) -> Seq<Rect> {
    blocking_rects_from(l.leveldata.blockingwalls@, offset, 0) + destructible_rects_from(
        l.leveldata.destructibles@,
        offset,
        0,
    ) + turret_rects_from(l.leveldata.turrets@, offset, 0)
}

/// The level's element lists and the tile scale they were laid out with.
pub struct LevelData {
    pub level_scale: i64,
    pub walls: Vec<WallElement>,
    pub blockingwalls: Vec<BlockingWallElement>,
    pub trapwalls: Vec<TrapWallElement>,
    pub enemy_spawner: Vec<EnemySpawnerElement>,
    pub destructibles: Vec<DestructibleElement>,
    pub turrets: Vec<TurretElement>,
    pub end_of_level: Option<LevelEndElement>,
}

impl LevelData {
    /// Scale in range, every element in range, and (once the level is
    /// loaded) the end marker placed.
    pub open spec fn wf(self) -> bool {
        &&& 0 < self.level_scale <= LEVEL_TILE_SCALE
        &&& self.walls@.len() <= 1_000_000
        &&& self.blockingwalls@.len() <= 1_000_000
        &&& self.trapwalls@.len() <= 1_000_000
        &&& self.enemy_spawner@.len() <= 1_000_000
        &&& self.destructibles@.len() <= 1_000_000
        &&& self.turrets@.len() <= 1_000_000
        &&& forall|i: int|
            0 <= i < self.walls@.len() ==> (#[trigger] self.walls@[i]).transform.wf()
        &&& forall|i: int|
            0 <= i < self.blockingwalls@.len() ==> (#[trigger] self.blockingwalls@[i]).entity.wf()
        &&& forall|i: int|
            0 <= i < self.trapwalls@.len() ==> (#[trigger] self.trapwalls@[i]).entity.wf()
        &&& forall|i: int|
            0 <= i < self.enemy_spawner@.len() ==> (#[trigger] self.enemy_spawner@[i]).entity.wf()
                && self.enemy_spawner@[i].spawner.wf()
        &&& forall|i: int|
            0 <= i < self.destructibles@.len() ==> (#[trigger] self.destructibles@[i]).entity.wf()
        &&& forall|i: int|
            0 <= i < self.turrets@.len() ==> (#[trigger] self.turrets@[i]).entity.wf()
                && self.turrets@[i].weapon.wf()
        &&& match self.end_of_level {
            Some(e) => e.entity.wf(),
            None => true,
        }
    }

    /// An empty layout at the given tile scale.
    pub fn new(scale: i64) -> (d: LevelData)
        requires
            0 < scale <= LEVEL_TILE_SCALE,
        ensures
            d.wf(),
            d.level_scale == scale,
            d.walls@.len() == 0,
            d.blockingwalls@.len() == 0,
            d.trapwalls@.len() == 0,
            d.enemy_spawner@.len() == 0,
            d.destructibles@.len() == 0,
            d.turrets@.len() == 0,
            d.end_of_level is None,
    {
        LevelData {
            level_scale: scale,
            walls: Vec::new(),
            blockingwalls: Vec::new(),
            trapwalls: Vec::new(),
            enemy_spawner: Vec::new(),
            destructibles: Vec::new(),
            turrets: Vec::new(),
            end_of_level: None,
        }
    }

    /// The quarter-turn a tile takes from a variation pick: every pick
    /// maps to one of the four right angles, in millidegrees.
    pub fn rotate_tile(&mut self, pick: u32) -> (r: i64)
        ensures
            r == ((pick % 4) as int) * 90_000,
            *final(self) == *old(self),
    {
        let quarter = pick % 4;
        match quarter {
            0 => 0,
            1 => 90_000,
            2 => 180_000,
            _ => 270_000,
        }
    }
}

/// A tile position is inside the image range the loader admits.
pub open spec fn tile_in_range(p: Vec2i) -> bool {
    0 <= p.x <= TILE_LIMIT && 0 <= p.y <= TILE_LIMIT
}

/// One loaded level: its element lists, their per-frame passes, and the
/// end-of-level test.
pub struct Level {
    pub leveldata: LevelData,
}

impl Level {
    /// Element lists in range and the end marker placed.
    pub open spec fn wf(self) -> bool {
        &&& self.leveldata.wf()
        &&& self.leveldata.end_of_level is Some
    }

    /// Whether the scrolled window has caught the end marker up.
    pub fn has_reached_level_end(&self, progress: i64) -> (r: bool)
        requires
            self.wf(),
        ensures
            r == inside_windowborder_spec(
                self.leveldata.end_of_level->Some_0.entity.transform.rect,
                progress as int,
                0,
            ),
    {
        match &self.leveldata.end_of_level {
            Some(end) => end.reached_end(progress),
            None => false,
        }
    }

    /// The visibility-culled wall list of this frame: the rectangles of
    /// the in-view blocking walls, then the in-view destructibles, then
    /// the in-view turrets, each also inside its widened window test.
    pub fn get_blocking_walls(&self, level_offset: i64) -> (v: Vec<Rect>)
        requires
            self.wf(),
            -COORD_LIMIT <= level_offset <= COORD_LIMIT,
        ensures
            v@ == blocking_rects_from(self.leveldata.blockingwalls@, level_offset as int, 0)
                + destructible_rects_from(self.leveldata.destructibles@, level_offset as int, 0)
                + turret_rects_from(self.leveldata.turrets@, level_offset as int, 0),
    {
        let mut visibles: Vec<Rect> = Vec::new();
        let ghost off = level_offset as int;
        let n1 = self.leveldata.blockingwalls.len();
        let mut i: usize = 0;
        while i < n1
            invariant
                n1 == self.leveldata.blockingwalls@.len(),
                i <= n1,
                self.wf(),
                -COORD_LIMIT <= level_offset <= COORD_LIMIT,
                off == level_offset as int,
                visibles@ + blocking_rects_from(self.leveldata.blockingwalls@, off, i as int)
                    == blocking_rects_from(self.leveldata.blockingwalls@, off, 0),
            decreases n1 - i,
        {
            let e = self.leveldata.blockingwalls[i];
            if e.entity.in_view {
                if inside_windowview(
                    e.entity.transform.rect,
                    level_offset + e.entity.transform.rect.w,
                ) {
                    proof {
                        assert(visibles@.push(e.entity.transform.rect) + blocking_rects_from(
                            self.leveldata.blockingwalls@,
                            off,
                            i + 1,
                        ) =~= visibles@ + (seq![e.entity.transform.rect] + blocking_rects_from(
                            self.leveldata.blockingwalls@,
                            off,
                            i + 1,
                        )));
                    }
                    visibles.push(e.entity.transform.rect);
                }
            }
            i = i + 1;
        }
        proof {
            assert(visibles@ + Seq::<Rect>::empty() =~= visibles@);
        }
        let ghost part1 = visibles@;
        let n2 = self.leveldata.destructibles.len();
        let mut i: usize = 0;
        while i < n2
            invariant
                n2 == self.leveldata.destructibles@.len(),
                i <= n2,
                self.wf(),
                -COORD_LIMIT <= level_offset <= COORD_LIMIT,
                off == level_offset as int,
                part1 == blocking_rects_from(self.leveldata.blockingwalls@, off, 0),
                visibles@ + destructible_rects_from(self.leveldata.destructibles@, off, i as int)
                    == part1 + destructible_rects_from(self.leveldata.destructibles@, off, 0),
            decreases n2 - i,
        {
            let e = self.leveldata.destructibles[i];
            if e.entity.in_view {
                if inside_windowborder(
                    e.entity.transform.rect,
                    level_offset + e.entity.transform.rect.w,
                    e.entity.transform.rect.h,
                ) {
                    proof {
                        assert(visibles@.push(e.entity.transform.rect) + destructible_rects_from(
                            self.leveldata.destructibles@,
                            off,
                            i + 1,
                        ) =~= visibles@ + (seq![e.entity.transform.rect]
                            + destructible_rects_from(self.leveldata.destructibles@, off, i + 1)));
                    }
                    visibles.push(e.entity.transform.rect);
                }
            }
            i = i + 1;
        }
        proof {
            assert(visibles@ + Seq::<Rect>::empty() =~= visibles@);
        }
        let ghost part2 = visibles@;
        let n3 = self.leveldata.turrets.len();
        let mut i: usize = 0;
        while i < n3
            invariant
                n3 == self.leveldata.turrets@.len(),
                i <= n3,
                self.wf(),
                -COORD_LIMIT <= level_offset <= COORD_LIMIT,
                off == level_offset as int,
                part2 == blocking_rects_from(self.leveldata.blockingwalls@, off, 0)
                    + destructible_rects_from(self.leveldata.destructibles@, off, 0),
                visibles@ + turret_rects_from(self.leveldata.turrets@, off, i as int) == part2
                    + turret_rects_from(self.leveldata.turrets@, off, 0),
            decreases n3 - i,
        {
            let e = self.leveldata.turrets[i];
            if e.entity.in_view {
                if inside_windowborder(
                    e.entity.transform.rect,
                    level_offset + e.entity.transform.rect.w,
                    e.entity.transform.rect.h,
                ) {
                    proof {
                        assert(visibles@.push(e.entity.transform.rect) + turret_rects_from(
                            self.leveldata.turrets@,
                            off,
                            i + 1,
                        ) =~= visibles@ + (seq![e.entity.transform.rect] + turret_rects_from(
                            self.leveldata.turrets@,
                            off,
                            i + 1,
                        )));
                    }
                    visibles.push(e.entity.transform.rect);
                }
            }
            i = i + 1;
        }
        proof {
            assert(visibles@ + Seq::<Rect>::empty() =~= visibles@);
        }
        visibles
    }
}


impl LevelData {
    /// Lays the decorative wall tiles out: one per position, one tile
    /// square, at the tile scale, with a deterministic quarter-turn.
    pub fn load_wall_fillings(&mut self, loader_data: &crate::levelloader::LoadedLevelData, world: &World)
        requires
            old(self).wf(),
            old(self).walls@.len() + loader_data.walls@.len() <= 1_000_000,
            forall|i: int|
                0 <= i < loader_data.walls@.len() ==> tile_in_range(#[trigger] loader_data.walls@[i]),
        ensures
            final(self).wf(),
            final(self).walls@.len() == old(self).walls@.len() + loader_data.walls@.len(),
            final(self).level_scale == old(self).level_scale,
            final(self).blockingwalls == old(self).blockingwalls,
            final(self).trapwalls == old(self).trapwalls,
            final(self).enemy_spawner == old(self).enemy_spawner,
            final(self).destructibles == old(self).destructibles,
            final(self).turrets == old(self).turrets,
            final(self).end_of_level == old(self).end_of_level,
    {
        let n = loader_data.walls.len();
        let mut i: usize = 0;
        while i < n
            invariant
                n == loader_data.walls@.len(),
                i <= n,
                self.wf(),
                old(self).walls@.len() + n <= 1_000_000,
                self.walls@.len() == old(self).walls@.len() + i,
                self.level_scale == old(self).level_scale,
                self.blockingwalls == old(self).blockingwalls,
                self.trapwalls == old(self).trapwalls,
                self.enemy_spawner == old(self).enemy_spawner,
                self.destructibles == old(self).destructibles,
                self.turrets == old(self).turrets,
                self.end_of_level == old(self).end_of_level,
                forall|j: int|
                    0 <= j < loader_data.walls@.len() ==> tile_in_range(
                        #[trigger] loader_data.walls@[j],
                    ),
            decreases n - i,
        {
            let mut wall = WallElement::new(world);
            wall.transform.set_size(Vec2i { x: SUBUNIT, y: SUBUNIT });
            wall.transform.set_scale(self.level_scale);
            let tile = loader_data.walls[i];
            proof {
                assert(0 <= tile.x * self.level_scale <= TILE_LIMIT * LEVEL_TILE_SCALE && 0
                    <= tile.y * self.level_scale <= TILE_LIMIT * LEVEL_TILE_SCALE)
                    by (nonlinear_arith)
                    requires
                        0 <= tile.x <= TILE_LIMIT,
                        0 <= tile.y <= TILE_LIMIT,
                        0 < self.level_scale <= LEVEL_TILE_SCALE,
                ;
            }
            wall.transform.set_position_not_centered(
                Vec2i { x: tile.x * self.level_scale, y: tile.y * self.level_scale },
            );
            wall.set_sprite(Vec2i { x: 0, y: 0 });
            wall.transform.rotation = self.rotate_tile(i as u32);
            self.walls.push(wall);
            i = i + 1;
        }
    }

    /// Places the end-of-level marker from the marker pixels: a one-tile
    /// column stretched to the marker's height, at the first marker
    /// column.
    pub fn load_level_end(&mut self, level_end: Vec<Vec2i>, world: &mut World)
        requires
            old(self).wf(),
            old(world).wf(),
            old(world).entities_view().len() < usize::MAX,
            forall|i: int| 0 <= i < level_end@.len() ==> tile_in_range(#[trigger] level_end@[i]),
        ensures
            final(self).wf(),
            final(world).wf(),
            final(self).end_of_level is Some,
            final(self).level_scale == old(self).level_scale,
            final(self).walls == old(self).walls,
            final(self).blockingwalls == old(self).blockingwalls,
            final(self).trapwalls == old(self).trapwalls,
            final(self).enemy_spawner == old(self).enemy_spawner,
            final(self).destructibles == old(self).destructibles,
            final(self).turrets == old(self).turrets,
            final(world).entities_view().len() == old(world).entities_view().len() + 1,
            final(world).score() == old(world).score(),
            final(world).offset() == old(world).offset(),
            final(world).completed() == old(world).completed(),
            final(world).difficulty() == old(world).difficulty(),
            final(world).level_view() == old(world).level_view(),
            final(world).particles_view() == old(world).particles_view(),
    {
        let mut end_element = LevelEndElement::new(world);
        let mut y_size: i64 = 0;
        let mut pos_y: i64 = 0;
        let mut pos_x: i64 = 0;
        let n = level_end.len();
        let mut i: usize = 0;
        while i < n
            invariant
                n == level_end@.len(),
                i <= n,
                0 <= y_size <= TILE_LIMIT + 1,
                0 <= pos_x <= TILE_LIMIT,
                0 <= pos_y <= TILE_LIMIT,
                forall|j: int| 0 <= j < level_end@.len() ==> tile_in_range(#[trigger] level_end@[j]),
            decreases n - i,
        {
            if level_end[i].y > y_size {
                pos_x = level_end[i].x;
                let last = level_end[n - 1];
                let first = level_end[0];
                y_size = if last.y >= first.y {
                    last.y - first.y + 1
                } else {
                    1
                };
                pos_y = first.y;
            }
            i = i + 1;
        }
        proof {
            assert((y_size * SUBUNIT) * end_element.entity.transform.scale <= COORD_LIMIT
                * SUBUNIT && SUBUNIT * end_element.entity.transform.scale <= COORD_LIMIT * SUBUNIT
                && 0 <= y_size * SUBUNIT) by (nonlinear_arith)
                requires
                    0 <= y_size <= TILE_LIMIT + 1,
                    end_element.entity.transform.scale == 1000,
                    SUBUNIT == 1000,
                    TILE_LIMIT == 20_000,
                    COORD_LIMIT == 1_000_000_000,
            ;
        }
        end_element.entity.transform.set_size(Vec2i { x: SUBUNIT, y: y_size * SUBUNIT });
        proof {
            assert((y_size * SUBUNIT) * self.level_scale <= COORD_LIMIT * SUBUNIT && 0 <= (y_size
                * SUBUNIT) * self.level_scale && SUBUNIT * self.level_scale <= COORD_LIMIT
                * SUBUNIT && 0 <= pos_x * self.level_scale <= TILE_LIMIT * LEVEL_TILE_SCALE && 0
                <= pos_y * self.level_scale <= TILE_LIMIT * LEVEL_TILE_SCALE)
                by (nonlinear_arith)
                requires
                    0 <= y_size <= TILE_LIMIT + 1,
                    0 <= pos_x <= TILE_LIMIT,
                    0 <= pos_y <= TILE_LIMIT,
                    0 < self.level_scale <= LEVEL_TILE_SCALE,
                    SUBUNIT == 1000,
                    TILE_LIMIT == 20_000,
                    LEVEL_TILE_SCALE == 45_000,
                    COORD_LIMIT == 1_000_000_000,
            ;
        }
        end_element.entity.transform.set_scale(self.level_scale);
        end_element.entity.transform.set_position_not_centered(
            Vec2i { x: pos_x * self.level_scale, y: pos_y * self.level_scale },
        );
        world.set_entity(&end_element.entity);
        self.end_of_level = Some(end_element);
    }

    /// Lays the blocking-wall tiles out and registers each.
    pub fn load_blocking_walls(&mut self, blockingwalls: Vec<Vec2i>, world: &mut World)
        requires
            old(self).wf(),
            old(world).wf(),
            old(world).entities_view().len() + blockingwalls@.len() < usize::MAX,
            old(self).blockingwalls@.len() + blockingwalls@.len() <= 1_000_000,
            forall|i: int|
                0 <= i < blockingwalls@.len() ==> tile_in_range(#[trigger] blockingwalls@[i]),
        ensures
            final(self).wf(),
            final(world).wf(),
            final(self).blockingwalls@.len() == old(self).blockingwalls@.len()
                + blockingwalls@.len(),
            final(self).level_scale == old(self).level_scale,
            final(self).walls == old(self).walls,
            final(self).trapwalls == old(self).trapwalls,
            final(self).enemy_spawner == old(self).enemy_spawner,
            final(self).destructibles == old(self).destructibles,
            final(self).turrets == old(self).turrets,
            final(self).end_of_level == old(self).end_of_level,
            final(world).entities_view().len() == old(world).entities_view().len()
                + blockingwalls@.len(),
            final(world).score() == old(world).score(),
            final(world).offset() == old(world).offset(),
            final(world).completed() == old(world).completed(),
            final(world).difficulty() == old(world).difficulty(),
            final(world).level_view() == old(world).level_view(),
            final(world).particles_view() == old(world).particles_view(),
    {
        let n = blockingwalls.len();
        let mut i: usize = 0;
        while i < n
            invariant
                n == blockingwalls@.len(),
                i <= n,
                self.wf(),
                world.wf(),
                world.entities_view().len() == old(world).entities_view().len() + i,
                old(world).entities_view().len() + n < usize::MAX,
                old(self).blockingwalls@.len() + n <= 1_000_000,
                self.blockingwalls@.len() == old(self).blockingwalls@.len() + i,
                self.level_scale == old(self).level_scale,
                self.walls == old(self).walls,
                self.trapwalls == old(self).trapwalls,
                self.enemy_spawner == old(self).enemy_spawner,
                self.destructibles == old(self).destructibles,
                self.turrets == old(self).turrets,
                self.end_of_level == old(self).end_of_level,
                world.score() == old(world).score(),
                world.offset() == old(world).offset(),
                world.completed() == old(world).completed(),
                world.difficulty() == old(world).difficulty(),
                world.level_view() == old(world).level_view(),
                world.particles_view() == old(world).particles_view(),
                forall|j: int|
                    0 <= j < blockingwalls@.len() ==> tile_in_range(#[trigger] blockingwalls@[j]),
            decreases n - i,
        {
            let mut wall = BlockingWallElement::new(world);
            wall.entity.transform.set_size(Vec2i { x: SUBUNIT, y: SUBUNIT });
            wall.entity.transform.set_scale(self.level_scale);
            let tile = blockingwalls[i];
            proof {
                assert(0 <= tile.x * self.level_scale <= TILE_LIMIT * LEVEL_TILE_SCALE && 0
                    <= tile.y * self.level_scale <= TILE_LIMIT * LEVEL_TILE_SCALE)
                    by (nonlinear_arith)
                    requires
                        0 <= tile.x <= TILE_LIMIT,
                        0 <= tile.y <= TILE_LIMIT,
                        0 < self.level_scale <= LEVEL_TILE_SCALE,
                ;
            }
            wall.entity.transform.set_position_not_centered(
                Vec2i { x: tile.x * self.level_scale, y: tile.y * self.level_scale },
            );
            wall.entity.transform.rotation = self.rotate_tile(i as u32);
            world.set_entity(&wall.entity);
            self.blockingwalls.push(wall);
            i = i + 1;
        }
    }

    /// Lays the trap tiles out and registers each.
    pub fn load_trap_walls(&mut self, trapwalls: Vec<Vec2i>, world: &mut World)
        requires
            old(self).wf(),
            old(world).wf(),
            old(world).entities_view().len() + trapwalls@.len() < usize::MAX,
            old(self).trapwalls@.len() + trapwalls@.len() <= 1_000_000,
            forall|i: int| 0 <= i < trapwalls@.len() ==> tile_in_range(#[trigger] trapwalls@[i]),
        ensures
            final(self).wf(),
            final(world).wf(),
            final(self).trapwalls@.len() == old(self).trapwalls@.len() + trapwalls@.len(),
            final(self).level_scale == old(self).level_scale,
            final(self).walls == old(self).walls,
            final(self).blockingwalls == old(self).blockingwalls,
            final(self).enemy_spawner == old(self).enemy_spawner,
            final(self).destructibles == old(self).destructibles,
            final(self).turrets == old(self).turrets,
            final(self).end_of_level == old(self).end_of_level,
            final(world).entities_view().len() == old(world).entities_view().len()
                + trapwalls@.len(),
            final(world).score() == old(world).score(),
            final(world).offset() == old(world).offset(),
            final(world).completed() == old(world).completed(),
            final(world).difficulty() == old(world).difficulty(),
            final(world).level_view() == old(world).level_view(),
            final(world).particles_view() == old(world).particles_view(),
    {
        let n = trapwalls.len();
        let mut i: usize = 0;
        while i < n
            invariant
                n == trapwalls@.len(),
                i <= n,
                self.wf(),
                world.wf(),
                world.entities_view().len() == old(world).entities_view().len() + i,
                old(world).entities_view().len() + n < usize::MAX,
                old(self).trapwalls@.len() + n <= 1_000_000,
                self.trapwalls@.len() == old(self).trapwalls@.len() + i,
                self.level_scale == old(self).level_scale,
                self.walls == old(self).walls,
                self.blockingwalls == old(self).blockingwalls,
                self.enemy_spawner == old(self).enemy_spawner,
                self.destructibles == old(self).destructibles,
                self.turrets == old(self).turrets,
                self.end_of_level == old(self).end_of_level,
                world.score() == old(world).score(),
                world.offset() == old(world).offset(),
                world.completed() == old(world).completed(),
                world.difficulty() == old(world).difficulty(),
                world.level_view() == old(world).level_view(),
                world.particles_view() == old(world).particles_view(),
                forall|j: int|
                    0 <= j < trapwalls@.len() ==> tile_in_range(#[trigger] trapwalls@[j]),
            decreases n - i,
        {
            let mut trap = TrapWallElement::new(world);
            trap.entity.transform.set_size(Vec2i { x: SUBUNIT, y: SUBUNIT });
            trap.entity.transform.set_scale(self.level_scale);
            let tile = trapwalls[i];
            proof {
                assert(0 <= tile.x * self.level_scale <= TILE_LIMIT * LEVEL_TILE_SCALE && 0
                    <= tile.y * self.level_scale <= TILE_LIMIT * LEVEL_TILE_SCALE)
                    by (nonlinear_arith)
                    requires
                        0 <= tile.x <= TILE_LIMIT,
                        0 <= tile.y <= TILE_LIMIT,
                        0 < self.level_scale <= LEVEL_TILE_SCALE,
                ;
            }
            trap.entity.transform.set_position_not_centered(
                Vec2i { x: tile.x * self.level_scale, y: tile.y * self.level_scale },
            );
            trap.entity.transform.rotation = self.rotate_tile(i as u32);
            world.set_entity(&trap.entity);
            self.trapwalls.push(trap);
            i = i + 1;
        }
    }

    /// Lays the destructible tiles out and registers each.
    pub fn load_destructibles(&mut self, destructibles: Vec<Vec2i>, world: &mut World)
        requires
            old(self).wf(),
            old(world).wf(),
            old(world).entities_view().len() + destructibles@.len() < usize::MAX,
            old(self).destructibles@.len() + destructibles@.len() <= 1_000_000,
            forall|i: int|
                0 <= i < destructibles@.len() ==> tile_in_range(#[trigger] destructibles@[i]),
        ensures
            final(self).wf(),
            final(world).wf(),
            final(self).destructibles@.len() == old(self).destructibles@.len()
                + destructibles@.len(),
            final(self).level_scale == old(self).level_scale,
            final(self).walls == old(self).walls,
            final(self).blockingwalls == old(self).blockingwalls,
            final(self).trapwalls == old(self).trapwalls,
            final(self).enemy_spawner == old(self).enemy_spawner,
            final(self).turrets == old(self).turrets,
            final(self).end_of_level == old(self).end_of_level,
            final(world).entities_view().len() == old(world).entities_view().len()
                + destructibles@.len(),
            final(world).score() == old(world).score(),
            final(world).offset() == old(world).offset(),
            final(world).completed() == old(world).completed(),
            final(world).difficulty() == old(world).difficulty(),
            final(world).level_view() == old(world).level_view(),
            final(world).particles_view() == old(world).particles_view(),
    {
        let n = destructibles.len();
        let mut i: usize = 0;
        while i < n
            invariant
                n == destructibles@.len(),
                i <= n,
                self.wf(),
                world.wf(),
                world.entities_view().len() == old(world).entities_view().len() + i,
                old(world).entities_view().len() + n < usize::MAX,
                old(self).destructibles@.len() + n <= 1_000_000,
                self.destructibles@.len() == old(self).destructibles@.len() + i,
                self.level_scale == old(self).level_scale,
                self.walls == old(self).walls,
                self.blockingwalls == old(self).blockingwalls,
                self.trapwalls == old(self).trapwalls,
                self.enemy_spawner == old(self).enemy_spawner,
                self.turrets == old(self).turrets,
                self.end_of_level == old(self).end_of_level,
                world.score() == old(world).score(),
                world.offset() == old(world).offset(),
                world.completed() == old(world).completed(),
                world.difficulty() == old(world).difficulty(),
                world.level_view() == old(world).level_view(),
                world.particles_view() == old(world).particles_view(),
                forall|j: int|
                    0 <= j < destructibles@.len() ==> tile_in_range(#[trigger] destructibles@[j]),
            decreases n - i,
        {
            let mut destructible = DestructibleElement::new(world);
            destructible.entity.transform.set_size(Vec2i { x: SUBUNIT, y: SUBUNIT });
            destructible.entity.transform.set_scale(self.level_scale);
            let tile = destructibles[i];
            proof {
                assert(0 <= tile.x * self.level_scale <= TILE_LIMIT * LEVEL_TILE_SCALE && 0
                    <= tile.y * self.level_scale <= TILE_LIMIT * LEVEL_TILE_SCALE)
                    by (nonlinear_arith)
                    requires
                        0 <= tile.x <= TILE_LIMIT,
                        0 <= tile.y <= TILE_LIMIT,
                        0 < self.level_scale <= LEVEL_TILE_SCALE,
                ;
            }
            destructible.entity.transform.set_position_not_centered(
                Vec2i { x: tile.x * self.level_scale, y: tile.y * self.level_scale },
            );
            destructible.entity.transform.rotation = self.rotate_tile(i as u32);
            world.set_entity(&destructible.entity);
            self.destructibles.push(destructible);
            i = i + 1;
        }
    }

    /// Lays the spawner tiles out and registers each, carrying the spawn
    /// map's enemy count and kind into the spawner.
    pub fn load_enemyspawner(
        &mut self,
        e_spawner: Vec<crate::levelloader::SpawnerPlacement>,
        world: &mut World,
    )
        requires
            old(self).wf(),
            old(world).wf(),
            old(world).entities_view().len() + 2 * e_spawner@.len() + 2 < usize::MAX,
            old(self).enemy_spawner@.len() + e_spawner@.len() <= 1_000_000,
            forall|i: int|
                0 <= i < e_spawner@.len() ==> tile_in_range(
                    (#[trigger] e_spawner@[i]).position,
                ),
        ensures
            final(self).wf(),
            final(world).wf(),
            final(self).enemy_spawner@.len() == old(self).enemy_spawner@.len() + e_spawner@.len(),
            forall|i: int|
                old(self).enemy_spawner@.len() <= i < final(self).enemy_spawner@.len() ==> (
                #[trigger] final(self).enemy_spawner@[i]).spawner.spawn_count == e_spawner@[i - old(self).enemy_spawner@.len()].count && final(self).enemy_spawner@[i].spawner.spawned
                    == 0,
            final(self).level_scale == old(self).level_scale,
            final(self).walls == old(self).walls,
            final(self).blockingwalls == old(self).blockingwalls,
            final(self).trapwalls == old(self).trapwalls,
            final(self).destructibles == old(self).destructibles,
            final(self).turrets == old(self).turrets,
            final(self).end_of_level == old(self).end_of_level,
            final(world).wf(),
            final(world).entities_view().len() == old(world).entities_view().len() + 2
                * e_spawner@.len(),
            final(world).score() == old(world).score(),
            final(world).offset() == old(world).offset(),
            final(world).completed() == old(world).completed(),
            final(world).difficulty() == old(world).difficulty(),
            final(world).level_view() == old(world).level_view(),
            final(world).particles_view() == old(world).particles_view(),
    {
        let n = e_spawner.len();
        let mut i: usize = 0;
        while i < n
            invariant
                n == e_spawner@.len(),
                i <= n,
                self.wf(),
                world.wf(),
                world.entities_view().len() == old(world).entities_view().len() + 2 * i,
                old(world).entities_view().len() + 2 * n + 2 < usize::MAX,
                old(self).enemy_spawner@.len() + n <= 1_000_000,
                self.enemy_spawner@.len() == old(self).enemy_spawner@.len() + i,
                forall|j: int|
                    0 <= j < i ==> (#[trigger] self.enemy_spawner@[old(self).enemy_spawner@.len() + j]).spawner.spawn_count == e_spawner@[j].count
                        && self.enemy_spawner@[old(self).enemy_spawner@.len() + j].spawner.spawned
                        == 0,
                forall|j: int|
                    0 <= j < old(self).enemy_spawner@.len() ==> (#[trigger] self.enemy_spawner@[j])
                        == old(self).enemy_spawner@[j],
                self.level_scale == old(self).level_scale,
                self.walls == old(self).walls,
                self.blockingwalls == old(self).blockingwalls,
                self.trapwalls == old(self).trapwalls,
                self.destructibles == old(self).destructibles,
                self.turrets == old(self).turrets,
                self.end_of_level == old(self).end_of_level,
                world.score() == old(world).score(),
                world.offset() == old(world).offset(),
                world.completed() == old(world).completed(),
                world.difficulty() == old(world).difficulty(),
                world.level_view() == old(world).level_view(),
                world.particles_view() == old(world).particles_view(),
                forall|j: int|
                    0 <= j < e_spawner@.len() ==> tile_in_range(
                        (#[trigger] e_spawner@[j]).position,
                    ),
            decreases n - i,
        {
            let placement = e_spawner[i];
            let mut spawner_element = EnemySpawnerElement::new(
                placement.count,
                placement.kind,
                world,
            );
            spawner_element.entity.transform.set_size(Vec2i { x: SUBUNIT, y: SUBUNIT });
            spawner_element.entity.transform.set_scale(self.level_scale);
            let tile = placement.position;
            proof {
                assert(0 <= tile.x * self.level_scale <= TILE_LIMIT * LEVEL_TILE_SCALE && 0
                    <= tile.y * self.level_scale <= TILE_LIMIT * LEVEL_TILE_SCALE)
                    by (nonlinear_arith)
                    requires
                        0 <= tile.x <= TILE_LIMIT,
                        0 <= tile.y <= TILE_LIMIT,
                        0 < self.level_scale <= LEVEL_TILE_SCALE,
                ;
            }
            spawner_element.entity.transform.set_position_not_centered(
                Vec2i { x: tile.x * self.level_scale, y: tile.y * self.level_scale },
            );
            let transform = spawner_element.entity.transform;
            spawner_element.spawner.set_transform(&transform);
            spawner_element.entity.transform.rotation = self.rotate_tile(i as u32);
            world.set_entity(&spawner_element.entity);
            self.enemy_spawner.push(spawner_element);
            i = i + 1;
        }
        proof {
            assert forall|i: int|
                old(self).enemy_spawner@.len() <= i < self.enemy_spawner@.len() implies (
            #[trigger] self.enemy_spawner@[i]).spawner.spawn_count == e_spawner@[i - old(self).enemy_spawner@.len()].count && self.enemy_spawner@[i].spawner.spawned == 0 by {
                let j = i - old(self).enemy_spawner@.len();
                assert(self.enemy_spawner@[old(self).enemy_spawner@.len() + j].spawner.spawn_count
                    == e_spawner@[j].count);
            }
        }
    }

    /// Lays the turret tiles out and registers each.
    pub fn load_turrets(&mut self, turrets: Vec<Vec2i>, world: &mut World)
        requires
            old(self).wf(),
            old(world).wf(),
            old(world).entities_view().len() + 2 * turrets@.len() + 2 < usize::MAX,
            old(self).turrets@.len() + turrets@.len() <= 1_000_000,
            forall|i: int| 0 <= i < turrets@.len() ==> tile_in_range(#[trigger] turrets@[i]),
        ensures
            final(self).wf(),
            final(world).wf(),
            final(self).turrets@.len() == old(self).turrets@.len() + turrets@.len(),
            final(world).entities_view().len() == old(world).entities_view().len() + 2
                * turrets@.len(),
            final(self).level_scale == old(self).level_scale,
            final(self).walls == old(self).walls,
            final(self).blockingwalls == old(self).blockingwalls,
            final(self).trapwalls == old(self).trapwalls,
            final(self).enemy_spawner == old(self).enemy_spawner,
            final(self).destructibles == old(self).destructibles,
            final(self).end_of_level == old(self).end_of_level,
            final(world).score() == old(world).score(),
            final(world).offset() == old(world).offset(),
            final(world).completed() == old(world).completed(),
            final(world).difficulty() == old(world).difficulty(),
            final(world).level_view() == old(world).level_view(),
            final(world).particles_view() == old(world).particles_view(),
    {
        let n = turrets.len();
        let mut i: usize = 0;
        while i < n
            invariant
                n == turrets@.len(),
                i <= n,
                self.wf(),
                world.wf(),
                world.entities_view().len() == old(world).entities_view().len() + 2 * i,
                old(world).entities_view().len() + 2 * n + 2 < usize::MAX,
                old(self).turrets@.len() + n <= 1_000_000,
                self.turrets@.len() == old(self).turrets@.len() + i,
                self.level_scale == old(self).level_scale,
                self.walls == old(self).walls,
                self.blockingwalls == old(self).blockingwalls,
                self.trapwalls == old(self).trapwalls,
                self.enemy_spawner == old(self).enemy_spawner,
                self.destructibles == old(self).destructibles,
                self.end_of_level == old(self).end_of_level,
                world.score() == old(world).score(),
                world.offset() == old(world).offset(),
                world.completed() == old(world).completed(),
                world.difficulty() == old(world).difficulty(),
                world.level_view() == old(world).level_view(),
                world.particles_view() == old(world).particles_view(),
                forall|j: int| 0 <= j < turrets@.len() ==> tile_in_range(#[trigger] turrets@[j]),
            decreases n - i,
        {
            let mut turret = TurretElement::new(world);
            turret.entity.transform.set_size(Vec2i { x: SUBUNIT, y: SUBUNIT });
            turret.entity.transform.set_scale(self.level_scale);
            let tile = turrets[i];
            proof {
                assert(0 <= tile.x * self.level_scale <= TILE_LIMIT * LEVEL_TILE_SCALE && 0
                    <= tile.y * self.level_scale <= TILE_LIMIT * LEVEL_TILE_SCALE)
                    by (nonlinear_arith)
                    requires
                        0 <= tile.x <= TILE_LIMIT,
                        0 <= tile.y <= TILE_LIMIT,
                        0 < self.level_scale <= LEVEL_TILE_SCALE,
                ;
            }
            turret.entity.transform.set_position_not_centered(
                Vec2i { x: tile.x * self.level_scale, y: tile.y * self.level_scale },
            );
            world.set_entity(&turret.entity);
            self.turrets.push(turret);
            i = i + 1;
        }
    }
}


impl Level {
    /// Builds a level from a decoded layout: every element list is laid
    /// out at the tile scale and registered, and the end marker is placed.
    pub fn new(world: &mut World, loaded: crate::levelloader::LoadedLevelData) -> (l: Level)
        requires
            old(world).wf(),
            old(world).entities_view().len() + loaded.walls@.len() + loaded.blocking_walls@.len()
                + loaded.trap_walls@.len() + loaded.destructibles@.len() + 2
                * loaded.enemy_spawner@.len() + 2 * loaded.turrets@.len() + 8 < usize::MAX,
            loaded.walls@.len() <= 100_000,
            loaded.blocking_walls@.len() <= 100_000,
            loaded.trap_walls@.len() <= 100_000,
            loaded.enemy_spawner@.len() <= 100_000,
            loaded.destructibles@.len() <= 100_000,
            loaded.turrets@.len() <= 100_000,
            forall|i: int|
                0 <= i < loaded.walls@.len() ==> tile_in_range(#[trigger] loaded.walls@[i]),
            forall|i: int|
                0 <= i < loaded.blocking_walls@.len() ==> tile_in_range(
                    #[trigger] loaded.blocking_walls@[i],
                ),
            forall|i: int|
                0 <= i < loaded.trap_walls@.len() ==> tile_in_range(
                    #[trigger] loaded.trap_walls@[i],
                ),
            forall|i: int|
                0 <= i < loaded.destructibles@.len() ==> tile_in_range(
                    #[trigger] loaded.destructibles@[i],
                ),
            forall|i: int|
                0 <= i < loaded.enemy_spawner@.len() ==> tile_in_range(
                    (#[trigger] loaded.enemy_spawner@[i]).position,
                ),
            forall|i: int|
                0 <= i < loaded.turrets@.len() ==> tile_in_range(#[trigger] loaded.turrets@[i]),
            forall|i: int|
                0 <= i < loaded.level_end@.len() ==> tile_in_range(#[trigger] loaded.level_end@[i]),
        ensures
            final(world).wf(),
            l.wf(),
            l.leveldata.walls@.len() == loaded.walls@.len(),
            l.leveldata.blockingwalls@.len() == loaded.blocking_walls@.len(),
            l.leveldata.trapwalls@.len() == loaded.trap_walls@.len(),
            l.leveldata.enemy_spawner@.len() == loaded.enemy_spawner@.len(),
            l.leveldata.destructibles@.len() == loaded.destructibles@.len(),
            l.leveldata.turrets@.len() == loaded.turrets@.len(),
            forall|i: int|
                0 <= i < loaded.enemy_spawner@.len() ==> (
                #[trigger] l.leveldata.enemy_spawner@[i]).spawner.spawn_count
                    == loaded.enemy_spawner@[i].count
                    && l.leveldata.enemy_spawner@[i].spawner.spawned == 0,
            old(world).entities_view().len() <= final(world).entities_view().len(),
            final(world).score() == old(world).score(),
            final(world).offset() == old(world).offset(),
            final(world).completed() == old(world).completed(),
            final(world).difficulty() == old(world).difficulty(),
            final(world).level_view() == old(world).level_view(),
            final(world).particles_view() == old(world).particles_view(),
    {
        let mut leveldata = LevelData::new(LEVEL_TILE_SCALE);
        leveldata.load_wall_fillings(&loaded, world);
        leveldata.load_level_end(loaded.level_end, world);
        leveldata.load_blocking_walls(loaded.blocking_walls, world);
        leveldata.load_trap_walls(loaded.trap_walls, world);
        leveldata.load_destructibles(loaded.destructibles, world);
        leveldata.load_enemyspawner(loaded.enemy_spawner, world);
        leveldata.load_turrets(loaded.turrets, world);
        Level { leveldata }
    }

    /// Applies the stat tables that depend on the world's difficulty:
    /// traps take their stats, spawner tiles and turrets take their
    /// shapes.
    pub fn init(&mut self, world: &mut World)
        requires
            old(self).wf(),
            old(world).wf(),
        ensures
            final(self).wf(),
            final(world).wf(),
            final(world).entities_view().len() == old(world).entities_view().len(),
            final(world).score() == old(world).score(),
            final(world).offset() == old(world).offset(),
            final(world).completed() == old(world).completed(),
            final(world).difficulty() == old(world).difficulty(),
            final(world).level_view() == old(world).level_view(),
            final(world).particles_view() == old(world).particles_view(),
    {
        let n1 = self.leveldata.trapwalls.len();
        let mut i: usize = 0;
        while i < n1
            invariant
                n1 == self.leveldata.trapwalls@.len(),
                i <= n1,
                self.wf(),
                world.wf(),
                world.entities_view().len() == old(world).entities_view().len(),
                world.score() == old(world).score(),
                world.offset() == old(world).offset(),
                world.completed() == old(world).completed(),
                world.difficulty() == old(world).difficulty(),
                world.level_view() == old(world).level_view(),
                world.particles_view() == old(world).particles_view(),
            decreases n1 - i,
        {
            let mut e = self.leveldata.trapwalls[i];
            e.init(world);
            self.leveldata.trapwalls.set(i, e);
            i = i + 1;
        }
        let n2 = self.leveldata.enemy_spawner.len();
        let mut i: usize = 0;
        while i < n2
            invariant
                n2 == self.leveldata.enemy_spawner@.len(),
                i <= n2,
                self.wf(),
                world.wf(),
                world.entities_view().len() == old(world).entities_view().len(),
                world.score() == old(world).score(),
                world.offset() == old(world).offset(),
                world.completed() == old(world).completed(),
                world.difficulty() == old(world).difficulty(),
                world.level_view() == old(world).level_view(),
                world.particles_view() == old(world).particles_view(),
            decreases n2 - i,
        {
            let mut e = self.leveldata.enemy_spawner[i];
            e.init(world);
            self.leveldata.enemy_spawner.set(i, e);
            i = i + 1;
        }
        let n3 = self.leveldata.turrets.len();
        let mut i: usize = 0;
        while i < n3
            invariant
                n3 == self.leveldata.turrets@.len(),
                i <= n3,
                self.wf(),
                world.wf(),
                world.entities_view().len() == old(world).entities_view().len(),
                world.score() == old(world).score(),
                world.offset() == old(world).offset(),
                world.completed() == old(world).completed(),
                world.difficulty() == old(world).difficulty(),
                world.level_view() == old(world).level_view(),
                world.particles_view() == old(world).particles_view(),
            decreases n3 - i,
        {
            let mut e = self.leveldata.turrets[i];
            e.init(world);
            self.leveldata.turrets.set(i, e);
            i = i + 1;
        }
    }

    /// The spawning pass: every spawner tile ticks, each issuing at most
    /// one enemy-pool request this frame.  The score never moves here.
    pub fn spawer_update(&mut self, enemypool: &mut EnemyPool, world: &mut World, dt: i64)
        requires
            old(self).wf(),
            old(world).wf(),
            old(enemypool).wf(old(world).entities_view().len() as int),
            0 <= dt <= DT_LIMIT,
            old(world).entities_view().len() + old(self).leveldata.enemy_spawner@.len() + 2
                < usize::MAX,
        ensures
            final(self).wf(),
            final(world).wf(),
            final(enemypool).wf(final(world).entities_view().len() as int),
            final(enemypool).pool_view().len() == old(enemypool).pool_view().len(),
            old(world).entities_view().len() <= final(world).entities_view().len() <= old(world).entities_view().len() + old(self).leveldata.enemy_spawner@.len(),
            final(world).score() == old(world).score(),
            final(world).offset() == old(world).offset(),
            final(world).completed() == old(world).completed(),
            final(world).difficulty() == old(world).difficulty(),
            final(world).level_view() == old(world).level_view(),
            final(world).particles_view() == old(world).particles_view(),
    {
        let n = self.leveldata.enemy_spawner.len();
        let mut i: usize = 0;
        while i < n
            invariant
                n == self.leveldata.enemy_spawner@.len(),
                i <= n,
                self.wf(),
                world.wf(),
                enemypool.wf(world.entities_view().len() as int),
                enemypool.pool_view().len() == old(enemypool).pool_view().len(),
                forall|jj: int|
                    0 <= jj < old(enemypool).pool_view().len() && (
                    #[trigger] old(enemypool).pool_view()[jj]).entity.is_active ==> enemypool.pool_view()[jj]
                        == old(enemypool).pool_view()[jj],
                0 <= dt <= DT_LIMIT,
                old(world).entities_view().len() + n + 2 < usize::MAX,
                old(world).entities_view().len() <= world.entities_view().len() <= old(world).entities_view().len() + i,
                world.score() == old(world).score(),
                world.offset() == old(world).offset(),
                world.completed() == old(world).completed(),
                world.difficulty() == old(world).difficulty(),
                world.level_view() == old(world).level_view(),
                world.particles_view() == old(world).particles_view(),
            decreases n - i,
        {
            let ghost epb = *enemypool;
            let mut e = self.leveldata.enemy_spawner[i];
            e.update(enemypool, world, dt);
            proof {
                assert forall|jj: int|
                    0 <= jj < old(enemypool).pool_view().len() && (
                    #[trigger] old(enemypool).pool_view()[jj]).entity.is_active implies enemypool.pool_view()[jj]
                    == old(enemypool).pool_view()[jj] by {
                    assert(epb.pool_view()[jj] == old(enemypool).pool_view()[jj]);
                    assert(epb.pool_view()[jj].entity.is_active);
                }
            }
            self.leveldata.enemy_spawner.set(i, e);
            i = i + 1;
        }
    }

    /// The per-frame pass: destructible tiles run their timers and are
    /// resolved against the frame's active snapshot.
    pub fn update(&mut self, world: &World, dt: i64)
        requires
            old(self).wf(),
            world.wf(),
            0 <= dt <= DT_LIMIT,
        ensures
            final(self).wf(),
    {
        let n = self.leveldata.destructibles.len();
        let mut i: usize = 0;
        while i < n
            invariant
                n == self.leveldata.destructibles@.len(),
                i <= n,
                self.wf(),
                world.wf(),
                0 <= dt <= DT_LIMIT,
            decreases n - i,
        {
            let mut e = self.leveldata.destructibles[i];
            e.update(world, dt);
            self.leveldata.destructibles.set(i, e);
            i = i + 1;
        }
    }

    /// The cleanup pass: every element recomputes its visibility, the
    /// destroyed destructibles, spawner tiles and turrets are recycled,
    /// and the turrets return fire.  The score never moves here.
    pub fn late_update(&mut self, world: &mut World, misslepool: &mut MisslePool, dt: i64)
        requires
            old(self).wf(),
            old(world).wf(),
            old(misslepool).wf(old(world).entities_view().len() as int),
            0 <= dt <= DT_LIMIT,
        ensures
            final(self).wf(),
            final(world).wf(),
            final(misslepool).wf(final(world).entities_view().len() as int),
            final(misslepool).pool_view().len() == old(misslepool).pool_view().len(),
            forall|i: int|
                0 <= i < old(misslepool).pool_view().len() && (
                #[trigger] old(misslepool).pool_view()[i]).entity.is_active ==> final(misslepool).pool_view()[i] == old(misslepool).pool_view()[i],
            final(world).entities_view().len() == old(world).entities_view().len(),
            final(world).score() == old(world).score(),
            final(world).offset() == old(world).offset(),
            final(world).completed() == old(world).completed(),
            final(world).difficulty() == old(world).difficulty(),
            final(world).level_view() == old(world).level_view(),
            final(world).particles_view() == old(world).particles_view(),
    {
        let n1 = self.leveldata.walls.len();
        let mut i: usize = 0;
        while i < n1
            invariant
                n1 == self.leveldata.walls@.len(),
                i <= n1,
                self.wf(),
            decreases n1 - i,
        {
            let mut e = self.leveldata.walls[i];
            e.late_update(world);
            self.leveldata.walls.set(i, e);
            i = i + 1;
        }
        let n2 = self.leveldata.blockingwalls.len();
        let mut i: usize = 0;
        while i < n2
            invariant
                n2 == self.leveldata.blockingwalls@.len(),
                i <= n2,
                self.wf(),
            decreases n2 - i,
        {
            let mut e = self.leveldata.blockingwalls[i];
            e.late_update(world);
            self.leveldata.blockingwalls.set(i, e);
            i = i + 1;
        }
        let n3 = self.leveldata.trapwalls.len();
        let mut i: usize = 0;
        while i < n3
            invariant
                n3 == self.leveldata.trapwalls@.len(),
                i <= n3,
                self.wf(),
            decreases n3 - i,
        {
            let mut e = self.leveldata.trapwalls[i];
            e.late_update(world);
            self.leveldata.trapwalls.set(i, e);
            i = i + 1;
        }
        let n4 = self.leveldata.destructibles.len();
        let mut i: usize = 0;
        while i < n4
            invariant
                n4 == self.leveldata.destructibles@.len(),
                i <= n4,
                self.wf(),
                world.wf(),
                world.entities_view().len() == old(world).entities_view().len(),
                world.score() == old(world).score(),
                world.offset() == old(world).offset(),
                world.completed() == old(world).completed(),
                world.difficulty() == old(world).difficulty(),
                world.level_view() == old(world).level_view(),
                world.particles_view() == old(world).particles_view(),
            decreases n4 - i,
        {
            let mut e = self.leveldata.destructibles[i];
            e.late_update(world);
            self.leveldata.destructibles.set(i, e);
            i = i + 1;
        }
        let n5 = self.leveldata.enemy_spawner.len();
        let mut i: usize = 0;
        while i < n5
            invariant
                n5 == self.leveldata.enemy_spawner@.len(),
                i <= n5,
                self.wf(),
                world.wf(),
                0 <= dt <= DT_LIMIT,
                world.entities_view().len() == old(world).entities_view().len(),
                world.score() == old(world).score(),
                world.offset() == old(world).offset(),
                world.completed() == old(world).completed(),
                world.difficulty() == old(world).difficulty(),
                world.level_view() == old(world).level_view(),
                world.particles_view() == old(world).particles_view(),
            decreases n5 - i,
        {
            let mut e = self.leveldata.enemy_spawner[i];
            e.late_update(world, dt);
            self.leveldata.enemy_spawner.set(i, e);
            i = i + 1;
        }
        let n6 = self.leveldata.turrets.len();
        let mut i: usize = 0;
        while i < n6
            invariant
                n6 == self.leveldata.turrets@.len(),
                i <= n6,
                self.wf(),
                world.wf(),
                misslepool.wf(world.entities_view().len() as int),
                misslepool.pool_view().len() == old(misslepool).pool_view().len(),
                forall|jj: int|
                    0 <= jj < old(misslepool).pool_view().len() && (
                    #[trigger] old(misslepool).pool_view()[jj]).entity.is_active ==> misslepool.pool_view()[jj]
                        == old(misslepool).pool_view()[jj],
                0 <= dt <= DT_LIMIT,
                world.entities_view().len() == old(world).entities_view().len(),
                world.score() == old(world).score(),
                world.offset() == old(world).offset(),
                world.completed() == old(world).completed(),
                world.difficulty() == old(world).difficulty(),
                world.level_view() == old(world).level_view(),
                world.particles_view() == old(world).particles_view(),
            decreases n6 - i,
        {
            let mut e = self.leveldata.turrets[i];
            e.shoot(misslepool, world, dt);
            e.late_update(world, dt);
            self.leveldata.turrets.set(i, e);
            i = i + 1;
        }
    }
}


} // verus!
