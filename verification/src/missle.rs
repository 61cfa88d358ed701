//! Missiles and their fixed-capacity pool.
//!
//! A missile's life is `Inactive -> Active (in flight) -> Inactive`: spawn
//! copies the firing weapon's stat snapshot and a direction, flight is one
//! explicit Euler step per frame, and the missile dies by leaving the
//! scrolled window or by the tag-dispatched collision rules.  Slots are
//! acquired at the lowest inactive index, so reuse is deterministic.
use vstd::prelude::*;
use crate::collision::{outside_windowborder, resolve_intersection, resolve_windowborder};
use crate::entity::{missle_tag_of, missle_tag_for, Entity, EntityName, Tag};
use crate::geom::{motion_delta, rects_overlap, scaled_step, Rect, Transform, Vec2i};
use crate::world::World;
use crate::{PoolError, COORD_LIMIT, DT_LIMIT, SUBUNIT};

verus! {

/// A pooled missile: a slot index bound for the session, the embedded
/// entity, the stat snapshot of the weapon that fired it, and its flight
/// direction in thousandths of a unit vector.
#[derive(Clone, Copy, PartialEq, Eq, Structural, Debug)]
pub struct Missle {
    pub misslepool_id: usize,
    pub entity: Entity,
    pub weapon: Option<Entity>,
    pub dir: Vec2i,
}

impl Missle {
    /// Entity in range and the direction no longer than a unit vector.
    pub open spec fn wf(self) -> bool {
        &&& self.entity.wf()
        &&& -SUBUNIT <= self.dir.x <= SUBUNIT
        &&& -SUBUNIT <= self.dir.y <= SUBUNIT
    }

    /// The slot after a release: direction and weapon cleared, transform
    /// reset to the zero sentinel, inactive.  Identity, name, tag and slot
    /// index are untouched, so releasing an already-released slot changes
    /// nothing.
    pub open spec fn reset_spec(self) -> Missle {
        Missle {
            misslepool_id: self.misslepool_id,
            entity: Entity {
                transform: Transform::zero_spec(),
                is_active: false,
                ..self.entity
            },
            weapon: None,
            dir: Vec2i { x: 0, y: 0 },
        }
    }

    /// Binds a fresh slot: registers the embedded entity, which starts in
    /// the registry's default (active) state until the pool resets it.
    pub fn new(pool_id: usize, world: &mut World) -> (m: Missle)
        requires
            old(world).wf(),
            old(world).entities_view().len() < usize::MAX,
        ensures
            final(world).wf(),
            m.wf(),
            m.misslepool_id == pool_id,
            m.weapon == None::<Entity>,
            m.dir == (Vec2i { x: 0, y: 0 }),
            m.entity == Entity::fresh_spec(
                EntityName::Missle,
                Tag::Missle,
                old(world).entities_view().len() as usize,
            ),
            final(world).entities_view() == old(world).entities_view().push(m.entity),
            final(world).actives_view() == old(world).actives_view(),
            final(world).score() == old(world).score(),
            final(world).offset() == old(world).offset(),
            final(world).completed() == old(world).completed(),
            final(world).difficulty() == old(world).difficulty(),
            final(world).level_view() == old(world).level_view(),
            final(world).particles_view() == old(world).particles_view(),
    {
        Missle {
            misslepool_id: pool_id,
            entity: Entity::new(EntityName::Missle, Tag::Missle, world),
            weapon: None,
            dir: Vec2i { x: 0, y: 0 },
        }
    }

    /// The transform a freshly configured missile carries: thirty units
    /// square at unit scale, centred on the firing weapon's position plus
    /// the spawn offset, turned as the weapon is turned.
    pub open spec fn setup_transform_spec(from_weapon: Entity, missle_spawn_offset: Vec2i) -> Transform {
        Transform {
            position: Vec2i {
                x: (from_weapon.transform.position.x + missle_spawn_offset.x) as i64,
                y: (from_weapon.transform.position.y + missle_spawn_offset.y) as i64,
            },
            rotation: from_weapon.transform.rotation,
            size: Vec2i { x: ((30 * SUBUNIT) as i64), y: ((30 * SUBUNIT) as i64) },
            scale: SUBUNIT,
            rect: Rect {
                x: (from_weapon.transform.position.x + missle_spawn_offset.x - 15 * SUBUNIT) as i64,
                y: (from_weapon.transform.position.y + missle_spawn_offset.y - 15 * SUBUNIT) as i64,
                w: ((30 * SUBUNIT) as i64),
                h: ((30 * SUBUNIT) as i64),
            },
        }
    }

    /// The slot after configuration: the weapon's stats are copied by
    /// value (later changes to the weapon do not reach missiles in
    /// flight), the tag derives from the weapon's tag, and the transform
    /// originates the shot at the weapon plus the spawn offset.
    pub open spec fn setup_spec(
        self,
        from_weapon: Entity,
        dir: Vec2i,
        missle_spawn_offset: Vec2i,
    ) -> Missle {
        Missle {
            misslepool_id: self.misslepool_id,
            entity: Entity {
                transform: Missle::setup_transform_spec(from_weapon, missle_spawn_offset),
                entity_params: from_weapon.entity_params,
                tag: missle_tag_for(from_weapon.tag),
                ..self.entity
            },
            weapon: Some(from_weapon),
            dir: dir,
        }
    }

    /// Configures the slot for a shot from `from_weapon`.
    pub fn setup_missle(&mut self, from_weapon: Entity, dir: Vec2i, missle_spawn_offset: Vec2i)
        requires
            old(self).wf(),
            from_weapon.wf(),
            -SUBUNIT <= dir.x <= SUBUNIT,
            -SUBUNIT <= dir.y <= SUBUNIT,
            -COORD_LIMIT <= from_weapon.transform.position.x + missle_spawn_offset.x
                <= COORD_LIMIT,
            -COORD_LIMIT <= from_weapon.transform.position.y + missle_spawn_offset.y
                <= COORD_LIMIT,
        ensures
            final(self).wf(),
            *final(self) == old(self).setup_spec(from_weapon, dir, missle_spawn_offset),
    {
        self.entity.transform.set_size(Vec2i { x: 30 * SUBUNIT, y: 30 * SUBUNIT });
        self.entity.transform.set_scale(SUBUNIT);
        let position = Vec2i {
            x: from_weapon.transform.position.x + missle_spawn_offset.x,
            y: from_weapon.transform.position.y + missle_spawn_offset.y,
        };
        self.entity.transform.set_position(position);
        self.entity.transform.rotation = from_weapon.transform.rotation;
        self.entity.entity_params = from_weapon.entity_params;
        self.entity.tag = missle_tag_of(from_weapon.tag);
        self.weapon = Some(from_weapon);
        self.dir = dir;
        proof {
            assert((30 * (SUBUNIT as int)) * (SUBUNIT as int) / (SUBUNIT as int) == 30 * (SUBUNIT as int)
                && (30 * (SUBUNIT as int)) / 2 == 15 * (SUBUNIT as int)) by (nonlinear_arith);
        }
    }

    /// Marks the slot active: the missile is in flight.
    pub fn fire(&mut self)
        ensures
            *final(self) == (Missle {
                entity: Entity { is_active: true, ..old(self).entity },
                ..*old(self)
            }),
    {
        self.entity.SetActive(true);
    }

    /// Releases the slot: transform to the zero sentinel, direction and
    /// weapon cleared, inactive.  Idempotent; the identity never changes.
    pub fn reset_missle(&mut self)
        ensures
            *final(self) == old(self).reset_spec(),
            final(self).entity.id == old(self).entity.id,
            !final(self).entity.is_active,
            old(self).entity.wf() ==> final(self).wf(),
    {
        self.weapon = None;
        self.dir = Vec2i { x: 0, y: 0 };
        self.entity.transform = Transform::zero();
        self.entity.SetActive(false);
    }

    /// Where one Euler step of flight puts the centre: the direction
    /// scaled by the stat snapshot's fire speed and the frame time.
    pub open spec fn moved_position(self, dt: int) -> Vec2i {
        Vec2i {
            x: (self.entity.transform.position.x + motion_delta(
                self.dir.x as int,
                self.entity.entity_params.firespeed as int,
                dt,
            )) as i64,
            y: (self.entity.transform.position.y + motion_delta(
                self.dir.y as int,
                self.entity.entity_params.firespeed as int,
                dt,
            )) as i64,
        }
    }

    /// The slot after one step of flight (before the window test).
    pub open spec fn moved_spec(self, dt: int) -> Missle {
        Missle {
            entity: Entity {
                transform: Transform {
                    position: self.moved_position(dt),
                    rect: Rect {
                        x: (self.moved_position(dt).x - self.entity.transform.full_w() / 2) as i64,
                        y: (self.moved_position(dt).y - self.entity.transform.full_h() / 2) as i64,
                        ..self.entity.transform.rect
                    },
                    ..self.entity.transform
                },
                ..self.entity
            },
            ..self
        }
    }

    /// The full per-frame transition of one slot: an inactive slot is
    /// untouched; an active one advances by one Euler step and is released
    /// the moment its rectangle leaves the scrolled window.
    pub open spec fn step_spec(self, dt: int, level_progress: int) -> Missle {
        if !self.entity.is_active {
            self
        } else if outside_windowborder(self.moved_spec(dt).entity.transform.rect, level_progress) {
            self.reset_spec()
        } else {
            self.moved_spec(dt)
        }
    }

    /// The slot's coordinates stay in range through one step of flight.
    pub open spec fn can_step(self, dt: int) -> bool {
        &&& -COORD_LIMIT <= self.entity.transform.position.x - self.entity.entity_params.firespeed
            * dt
        &&& self.entity.transform.position.x + self.entity.entity_params.firespeed * dt
            <= COORD_LIMIT
        &&& -COORD_LIMIT <= self.entity.transform.position.y - self.entity.entity_params.firespeed
            * dt
        &&& self.entity.transform.position.y + self.entity.entity_params.firespeed * dt
            <= COORD_LIMIT
    }

    /// One frame of flight: position advances by direction times fire
    /// speed times elapsed time, and a missile that leaves the scrolled
    /// window is released on the same tick.
    pub fn update(&mut self, world: &World, dt: i64)
        requires
            old(self).wf(),
            0 <= dt <= DT_LIMIT,
            old(self).can_step(dt as int),
        ensures
            final(self).wf(),
            *final(self) == old(self).step_spec(dt as int, world.offset() as int),
    {
        if !self.entity.is_active {
            return ;
        }
        let dx = scaled_step(self.dir.x, self.entity.entity_params.firespeed, dt);
        let dy = scaled_step(self.dir.y, self.entity.entity_params.firespeed, dt);
        let position = Vec2i {
            x: self.entity.transform.position.x + dx,
            y: self.entity.transform.position.y + dy,
        };
        self.entity.transform.set_position(position);
        if resolve_windowborder(self.entity.transform.rect, world.get_level_offset()) {
            self.reset_missle();
        }
    }

    /// The collision rule table, total over the tag set: which target tags
    /// end a missile's flight.  A player missile dies on enemies, walls,
    /// destructibles and turrets; an enemy missile dies on the player and
    /// on walls; every other pairing passes through.
    pub open spec fn missle_rule(missle_tag: Tag, target_tag: Tag) -> bool {
        match target_tag {
            Tag::Enemy => missle_tag.is_player_side(),
            Tag::Player => missle_tag.is_enemy_side(),
            Tag::Wall => missle_tag.is_player_side() || missle_tag.is_enemy_side(),
            Tag::Destructible => missle_tag.is_player_side(),
            Tag::Turret => missle_tag.is_player_side(),
            _ => false,
        }
    }

    /// The missile's rectangle meets the entity's and the rule table says
    /// the pairing is a hit.
    pub open spec fn hits(self, entity: Entity) -> bool {
        rects_overlap(self.entity.transform.rect, entity.transform.rect) && Missle::missle_rule(
            self.entity.tag,
            entity.tag,
        )
    }

    /// Resolves the missile against one entity: on a hit the missile is
    /// released (the damage side of the exchange belongs to the struck
    /// entity's own collision pass); otherwise nothing changes.
    pub fn on_collision(&mut self, entity: &Entity)
        ensures
            *final(self) == if old(self).hits(*entity) {
                old(self).reset_spec()
            } else {
                *old(self)
            },
    {
        if !resolve_intersection(self.entity.transform.rect, entity.transform.rect) {
            return ;
        }
        match entity.tag {
            Tag::Enemy => {
                if is_player_side_tag(self.entity.tag) {
                    self.reset_missle();
                }
            },
            Tag::Player => {
                if is_enemy_side_tag(self.entity.tag) {
                    self.reset_missle();
                }
            },
            Tag::Wall => {
                if is_player_side_tag(self.entity.tag) || is_enemy_side_tag(self.entity.tag) {
                    self.reset_missle();
                }
            },
            Tag::Destructible => {
                if is_player_side_tag(self.entity.tag) {
                    self.reset_missle();
                }
            },
            Tag::Turret => {
                if is_player_side_tag(self.entity.tag) {
                    self.reset_missle();
                }
            },
            _ => {},
        }
    }

    /// Whether some non-missile entity in the snapshot meets the missile
    /// under the rule table: the release condition of one collision pass.
    pub open spec fn hit_in(self, actives: Seq<Entity>) -> bool {
        exists|i: int|
            0 <= i < actives.len() && !(#[trigger] actives[i]).tag.is_missle() && self.hits(
                actives[i],
            )
    }

    /// Scans the frame's active-entity snapshot and resolves the first
    /// qualifying intersection: the missile is released exactly when some
    /// non-missile entity in the snapshot meets it under the rule table.
    pub fn late_update(&mut self, actives: &Vec<Entity>)
        ensures
            *final(self) == if old(self).hit_in(actives@) {
                old(self).reset_spec()
            } else {
                *old(self)
            },
    {
        let n = actives.len();
        let mut idx: usize = 0;
        while idx < n
            invariant
                n == actives@.len(),
                idx <= n,
                *self == if exists|i: int|
                    0 <= i < idx && !(#[trigger] actives@[i]).tag.is_missle() && old(self).hits(actives@[i]) {
                    old(self).reset_spec()
                } else {
                    *old(self)
                },
            decreases n - idx,
        {
            let e = &actives[idx];
            let skip = match e.tag {
                Tag::PlayerMissle | Tag::EnemyMissle | Tag::Missle => true,
                _ => false,
            };
            if !skip {
                proof {
                    assert(old(self).reset_spec().reset_spec() == old(self).reset_spec());
                    assert(!old(self).reset_spec().hits(actives@[idx as int])
                        || old(self).reset_spec().reset_spec() == old(self).reset_spec());
                }
                self.on_collision(e);
            }
            idx = idx + 1;
        }
    }
}

/// Executable test for `Tag::is_player_side`.
fn is_player_side_tag(tag: Tag) -> (r: bool)
    ensures
        r == tag.is_player_side(),
{
    match tag {
        Tag::Player | Tag::PlayerWeapon | Tag::PlayerMissle => true,
        _ => false,
    }
}

/// Executable test for `Tag::is_enemy_side`.
fn is_enemy_side_tag(tag: Tag) -> (r: bool)
    ensures
        r == tag.is_enemy_side(),
{
    match tag {
        Tag::Enemy | Tag::EnemyWeapon | Tag::EnemyMissle => true,
        _ => false,
    }
}

/// Law: releasing a slot is idempotent, and it never touches the slot's
/// identity -- releasing an already-inactive slot leaves it exactly as it
/// was released, still inactive.
pub proof fn lemma_release_idempotent(m: Missle)
    ensures
        m.reset_spec().reset_spec() == m.reset_spec(),
        m.reset_spec().entity.id == m.entity.id,
        !m.reset_spec().entity.is_active,
{
}

/// Law: under the collision rule table, a player missile that meets an
/// enemy's rectangle is a hit: the missile's collision pass releases it
/// (inactive, zero transform), and the enemy's own collision pass lands
/// exactly one hit-unit of health, no more and no less, when its
/// hit-feedback gate is open.  A player missile that meets a wall is
/// released too, but carries no damage in any direction: the release
/// leaves every stat record -- its own included -- exactly as it was.
pub proof fn lemma_player_missile_dispatch(m: Missle, enemy: Entity, wall: Entity)
    requires
        m.entity.tag == Tag::PlayerMissle,
        enemy.tag == Tag::Enemy,
        wall.tag == Tag::Wall,
        rects_overlap(m.entity.transform.rect, enemy.transform.rect),
        rects_overlap(m.entity.transform.rect, wall.transform.rect),
        enemy.hit_feedback_timer <= 0,
        enemy.entity_params.health > -crate::STAT_LIMIT,
    ensures
        m.hits(enemy),
        m.hits(wall),
        !m.reset_spec().entity.is_active,
        m.reset_spec().entity.transform == Transform::zero_spec(),
        enemy.hit_spec().entity_params.health == enemy.entity_params.health - 1,
        m.reset_spec().entity.entity_params == m.entity.entity_params,
{
}

/// Filtering changes nothing when every element satisfies the predicate.
pub proof fn lemma_filter_all_true(s: Seq<Entity>, pred: spec_fn(Entity) -> bool)
    requires
        forall|i: int| 0 <= i < s.len() ==> pred(#[trigger] s[i]),
    ensures
        s.filter(pred) == s,
    decreases s.len(),
{
    reveal(Seq::filter);
    if s.len() > 0 {
        lemma_filter_all_true(s.drop_last(), pred);
        assert(s.drop_last().push(s.last()) =~= s);
    }
}

/// The slot a fresh pool holds at index `i` when the registry held
/// `world_len` entities before the pool was created: a released missile
/// bound to identity `world_len + i`.
pub open spec fn pooled_slot_spec(i: int, world_len: int) -> Missle {
    Missle {
        misslepool_id: i as usize,
        entity: Entity {
            transform: Transform::zero_spec(),
            is_active: false,
            ..Entity::fresh_spec(EntityName::Missle, Tag::Missle, (world_len + i) as usize)
        },
        weapon: None,
        dir: Vec2i { x: 0, y: 0 },
    }
}

/// The fixed-capacity missile pool.  Slots are preallocated once, each
/// bound to one registry identity for the session; acquisition scans for
/// the lowest inactive slot, release marks a slot inactive and resets it.
pub struct MisslePool {
    pool: Vec<Missle>,
}

impl MisslePool {
    /// The slots, in index order.
    pub closed spec fn pool_view(self) -> Seq<Missle> {
        self.pool@
    }

    /// Every slot is well-formed, remembers its own index, and is bound to
    /// a distinct identity the registry holds.
    pub open spec fn wf(self, world_len: int) -> bool {
        &&& forall|i: int|
            0 <= i < self.pool_view().len() ==> (#[trigger] self.pool_view()[i]).wf()
                && self.pool_view()[i].misslepool_id == i && self.pool_view()[i].entity.id
                < world_len
        &&& forall|i: int, j: int|
            0 <= i < self.pool_view().len() && 0 <= j < self.pool_view().len() && i != j ==> (
            #[trigger] self.pool_view()[i]).entity.id != (#[trigger] self.pool_view()[j]).entity.id
    }

    /// How many slots the pool holds.
    pub fn len(&self) -> (n: usize)
        ensures
            n == self.pool_view().len(),
    {
        self.pool.len()
    }

    /// Reads one slot.
    pub fn get_slot(&self, i: usize) -> (m: Missle)
        requires
            i < self.pool_view().len(),
        ensures
            m == self.pool_view()[i as int],
    {
        self.pool[i]
    }

    /// An empty pool; `create_pool` gives it its capacity.
    pub fn new() -> (p: MisslePool)
        ensures
            p.pool_view() == Seq::<Missle>::empty(),
            forall|world_len: int| p.wf(world_len),
    {
        MisslePool { pool: Vec::new() }
    }

    /// Preallocates `count` slots, registering one entity per slot and
    /// releasing each immediately: the pool starts fully inactive, and the
    /// registry grows by exactly the pool's entities.
    pub fn create_pool(&mut self, count: usize, world: &mut World)
        requires
            old(world).wf(),
            old(world).entities_view().len() + count < usize::MAX,
        ensures
            final(world).wf(),
            final(self).wf(final(world).entities_view().len() as int),
            final(self).pool_view().len() == count,
            forall|i: int|
                0 <= i < count ==> (#[trigger] final(self).pool_view()[i]) == pooled_slot_spec(
                    i,
                    old(world).entities_view().len() as int,
                ),
            final(world).entities_view().len() == old(world).entities_view().len() + count,
            forall|k: int|
                0 <= k < old(world).entities_view().len() ==> final(world).entities_view()[k] == old(world).entities_view()[k],
            forall|i: int|
                0 <= i < count ==> final(world).entities_view()[old(world).entities_view().len() + i]
                    == pooled_slot_spec(i, old(world).entities_view().len() as int).entity,
            final(world).actives_view() == old(world).actives_view(),
            final(world).score() == old(world).score(),
            final(world).offset() == old(world).offset(),
            final(world).completed() == old(world).completed(),
            final(world).difficulty() == old(world).difficulty(),
            final(world).level_view() == old(world).level_view(),
            final(world).particles_view() == old(world).particles_view(),
    {
        self.pool = Vec::new();
        let base = world.entity_count();
        let ghost base_actives = world.actives_view();
        let mut i: usize = 0;
        while i < count
            invariant
                i <= count,
                base == old(world).entities_view().len(),
                base + count < usize::MAX,
                world.wf(),
                world.entities_view().len() == base + i,
                self.pool@.len() == i,
                forall|j: int|
                    0 <= j < i ==> (#[trigger] self.pool@[j]) == pooled_slot_spec(j, base as int),
                forall|k: int|
                    0 <= k < base ==> world.entities_view()[k] == old(world).entities_view()[k],
                forall|j: int|
                    0 <= j < i ==> world.entities_view()[base + j] == pooled_slot_spec(
                        j,
                        base as int,
                    ).entity,
                world.actives_view() == base_actives,
                base_actives == old(world).actives_view(),
                world.score() == old(world).score(),
                world.offset() == old(world).offset(),
                world.completed() == old(world).completed(),
                world.difficulty() == old(world).difficulty(),
                world.level_view() == old(world).level_view(),
                world.particles_view() == old(world).particles_view(),
            decreases count - i,
        {
            let mut missle = Missle::new(i, world);
            missle.reset_missle();
            proof {
                assert(missle == pooled_slot_spec(i as int, base as int));
                lemma_filter_all_true(
                    world.actives_view(),
                    |a: Entity| a.id != missle.entity.id,
                );
            }
            world.set_entity(&missle.entity);
            self.pool.push(missle);
            i = i + 1;
        }
    }

    /// The lowest inactive slot, or `None` when every slot is active: the
    /// deterministic, low-index-biased acquisition order.
    fn get_free_slot(&self) -> (r: Option<usize>)
        ensures
            match r {
                Some(k) => k < self.pool_view().len() && !self.pool_view()[k as int].entity.is_active
                    && forall|j: int|
                    0 <= j < k ==> (#[trigger] self.pool_view()[j]).entity.is_active,
                None => forall|j: int|
                    0 <= j < self.pool_view().len() ==> (
                    #[trigger] self.pool_view()[j]).entity.is_active,
            },
    {
        let n = self.pool.len();
        let mut i: usize = 0;
        while i < n
            invariant
                n == self.pool@.len(),
                i <= n,
                forall|j: int| 0 <= j < i ==> (#[trigger] self.pool@[j]).entity.is_active,
            decreases n - i,
        {
            if !self.pool[i].entity.is_active {
                return Some(i);
            }
            i = i + 1;
        }
        None
    }

    /// The slot `fire_missle` produces on success: configured from the
    /// weapon snapshot and marked in flight.
    pub open spec fn fired_slot_spec(
        slot: Missle,
        from_weapon: Entity,
        dir: Vec2i,
        missle_spawn_offset: Vec2i,
    ) -> Missle {
        Missle {
            entity: Entity {
                is_active: true,
                ..slot.setup_spec(from_weapon, dir, missle_spawn_offset).entity
            },
            ..slot.setup_spec(from_weapon, dir, missle_spawn_offset)
        }
    }

    /// Acquires the lowest inactive slot and fires it: the slot is
    /// configured from the weapon's snapshot, activated, and written back
    /// to the registry.  With every slot active the request fails
    /// explicitly and nothing -- pool or world -- changes.
    pub fn fire_missle(
        &mut self,
        from_weapon: Entity,
        dir: Vec2i,
        missle_spawn_offset: Vec2i,
        world: &mut World,
    ) -> (r: Result<usize, PoolError>)
        requires
            old(world).wf(),
            old(self).wf(old(world).entities_view().len() as int),
            from_weapon.wf(),
            -SUBUNIT <= dir.x <= SUBUNIT,
            -SUBUNIT <= dir.y <= SUBUNIT,
            -COORD_LIMIT <= from_weapon.transform.position.x + missle_spawn_offset.x
                <= COORD_LIMIT,
            -COORD_LIMIT <= from_weapon.transform.position.y + missle_spawn_offset.y
                <= COORD_LIMIT,
        ensures
            final(world).wf(),
            final(self).wf(final(world).entities_view().len() as int),
            final(world).entities_view().len() == old(world).entities_view().len(),
            final(world).score() == old(world).score(),
            final(world).offset() == old(world).offset(),
            final(world).completed() == old(world).completed(),
            final(world).difficulty() == old(world).difficulty(),
            final(world).level_view() == old(world).level_view(),
            final(world).particles_view() == old(world).particles_view(),
            match r {
                Ok(slot) => {
                    &&& slot < old(self).pool_view().len()
                    &&& !old(self).pool_view()[slot as int].entity.is_active
                    &&& forall|j: int|
                        0 <= j < slot ==> (#[trigger] old(self).pool_view()[j]).entity.is_active
                    &&& final(self).pool_view() == old(self).pool_view().update(
                        slot as int,
                        MisslePool::fired_slot_spec(
                            old(self).pool_view()[slot as int],
                            from_weapon,
                            dir,
                            missle_spawn_offset,
                        ),
                    )
                    &&& final(world).entities_view() == old(world).entities_view().update(
                        old(self).pool_view()[slot as int].entity.id as int,
                        final(self).pool_view()[slot as int].entity,
                    )
                },
                Err(e) => {
                    &&& e == PoolError::Exhausted
                    &&& forall|j: int|
                        0 <= j < old(self).pool_view().len() ==> (
                        #[trigger] old(self).pool_view()[j]).entity.is_active
                    &&& final(self).pool_view() == old(self).pool_view()
                    &&& final(world).entities_view() == old(world).entities_view()
                    &&& final(world).actives_view() == old(world).actives_view()
                },
            },
    {
        let free_slot = self.get_free_slot();
        match free_slot {
            Some(slot) => {
                let mut m = self.pool[slot];
                m.setup_missle(from_weapon, dir, missle_spawn_offset);
                m.fire();
                self.pool.set(slot, m);
                world.set_entity(&m.entity);
                Ok(slot)
            },
            None => Err(PoolError::Exhausted),
        }
    }

    /// One flight step for every active slot, each written back to the
    /// registry: afterwards every slot equals its `step_spec`, and the
    /// registry record of every missile that was active equals the
    /// missile's new entity.
    #[verifier::rlimit(100)]
    pub fn update(&mut self, world: &mut World, dt: i64)
        requires
            old(world).wf(),
            old(self).wf(old(world).entities_view().len() as int),
            0 <= dt <= DT_LIMIT,
            forall|i: int|
                0 <= i < old(self).pool_view().len() && (
                #[trigger] old(self).pool_view()[i]).entity.is_active ==> old(self).pool_view()[i].can_step(dt as int),
        ensures
            final(world).wf(),
            final(self).wf(final(world).entities_view().len() as int),
            final(self).pool_view().len() == old(self).pool_view().len(),
            forall|i: int|
                0 <= i < old(self).pool_view().len() ==> (#[trigger] final(self).pool_view()[i])
                    == old(self).pool_view()[i].step_spec(dt as int, old(world).offset() as int),
            final(world).entities_view().len() == old(world).entities_view().len(),
            forall|i: int|
                0 <= i < old(self).pool_view().len() && (
                #[trigger] old(self).pool_view()[i]).entity.is_active ==> final(world).entities_view()[old(self).pool_view()[i].entity.id as int] == final(self).pool_view()[i].entity,
            final(world).score() == old(world).score(),
            final(world).offset() == old(world).offset(),
            final(world).completed() == old(world).completed(),
            final(world).difficulty() == old(world).difficulty(),
            final(world).level_view() == old(world).level_view(),
            final(world).particles_view() == old(world).particles_view(),
    {
        let n = self.pool.len();
        let mut i: usize = 0;
        while i < n
            invariant
                n == self.pool@.len(),
                n == old(self).pool_view().len(),
                i <= n,
                world.wf(),
                world.entities_view().len() == old(world).entities_view().len(),
                old(self).wf(old(world).entities_view().len() as int),
                0 <= dt <= DT_LIMIT,
                forall|j: int|
                    0 <= j < n && (#[trigger] old(self).pool_view()[j]).entity.is_active ==> old(self).pool_view()[j].can_step(dt as int),
                forall|j: int|
                    0 <= j < i ==> (#[trigger] self.pool@[j]) == old(self).pool_view()[j].step_spec(
                        dt as int,
                        old(world).offset() as int,
                    ),
                forall|j: int| i <= j < n ==> (#[trigger] self.pool@[j]) == old(self).pool_view()[j],
                forall|j: int|
                    0 <= j < i && (#[trigger] old(self).pool_view()[j]).entity.is_active
                        ==> world.entities_view()[old(self).pool_view()[j].entity.id as int]
                        == self.pool@[j].entity,
                world.score() == old(world).score(),
                world.offset() == old(world).offset(),
                world.completed() == old(world).completed(),
                world.difficulty() == old(world).difficulty(),
                world.level_view() == old(world).level_view(),
                world.particles_view() == old(world).particles_view(),
            decreases n - i,
        {
            if self.pool[i].entity.is_active {
                let mut m = self.pool[i];
                step_and_store(&mut m, world, dt);
                self.pool.set(i, m);
            }
            i = i + 1;
        }
    }

    /// The collision pass: every slot that was active scans the frame's
    /// active-entity snapshot (frozen at entry) and is released exactly
    /// when some qualifying active entity meets it under the rule table;
    /// its final entity is written back to the registry.  Slots that were
    /// inactive are untouched.
    #[verifier::rlimit(100)]
    pub fn late_update(&mut self, world: &mut World)
        requires
            old(world).wf(),
            old(self).wf(old(world).entities_view().len() as int),
        ensures
            forall|i: int|
                0 <= i < old(self).pool_view().len() && (
                #[trigger] old(self).pool_view()[i]).entity.is_active ==> final(self).pool_view()[i] == (if old(self).pool_view()[i].hit_in(old(world).actives_view()) {
                    old(self).pool_view()[i].reset_spec()
                } else {
                    old(self).pool_view()[i]
                }),
            final(world).wf(),
            final(self).wf(final(world).entities_view().len() as int),
            final(self).pool_view().len() == old(self).pool_view().len(),
            forall|i: int|
                0 <= i < old(self).pool_view().len() ==> (#[trigger] final(self).pool_view()[i])
                    == old(self).pool_view()[i] || final(self).pool_view()[i] == old(self).pool_view()[i].reset_spec(),
            forall|i: int|
                0 <= i < old(self).pool_view().len() && !(
                #[trigger] old(self).pool_view()[i]).entity.is_active ==> final(self).pool_view()[i] == old(self).pool_view()[i],
            final(world).entities_view().len() == old(world).entities_view().len(),
            forall|i: int|
                0 <= i < old(self).pool_view().len() && (
                #[trigger] old(self).pool_view()[i]).entity.is_active ==> final(world).entities_view()[old(self).pool_view()[i].entity.id as int] == final(self).pool_view()[i].entity,
            final(world).score() == old(world).score(),
            final(world).offset() == old(world).offset(),
            final(world).completed() == old(world).completed(),
            final(world).difficulty() == old(world).difficulty(),
            final(world).level_view() == old(world).level_view(),
            final(world).particles_view() == old(world).particles_view(),
    {
        let snapshot = crate::levelloader::copy_vec_copyable(world.get_actives());
        let n = self.pool.len();
        let mut i: usize = 0;
        while i < n
            invariant
                n == self.pool@.len(),
                n == old(self).pool_view().len(),
                i <= n,
                world.wf(),
                snapshot@ == old(world).actives_view(),
                world.entities_view().len() == old(world).entities_view().len(),
                old(self).wf(old(world).entities_view().len() as int),
                forall|j: int|
                    0 <= j < i && (#[trigger] old(self).pool_view()[j]).entity.is_active
                        ==> self.pool@[j] == (if old(self).pool_view()[j].hit_in(
                        old(world).actives_view(),
                    ) {
                        old(self).pool_view()[j].reset_spec()
                    } else {
                        old(self).pool_view()[j]
                    }),
                forall|j: int|
                    0 <= j < i ==> (#[trigger] self.pool@[j]) == old(self).pool_view()[j]
                        || self.pool@[j] == old(self).pool_view()[j].reset_spec(),
                forall|j: int|
                    0 <= j < i && !(#[trigger] old(self).pool_view()[j]).entity.is_active
                        ==> self.pool@[j] == old(self).pool_view()[j],
                forall|j: int| i <= j < n ==> (#[trigger] self.pool@[j]) == old(self).pool_view()[j],
                forall|j: int|
                    0 <= j < i && (#[trigger] old(self).pool_view()[j]).entity.is_active
                        ==> world.entities_view()[old(self).pool_view()[j].entity.id as int]
                        == self.pool@[j].entity,
                world.score() == old(world).score(),
                world.offset() == old(world).offset(),
                world.completed() == old(world).completed(),
                world.difficulty() == old(world).difficulty(),
                world.level_view() == old(world).level_view(),
                world.particles_view() == old(world).particles_view(),
            decreases n - i,
        {
            if self.pool[i].entity.is_active {
                let mut m = self.pool[i];
                collide_and_store(&mut m, &snapshot, world);
                self.pool.set(i, m);
            }
            i = i + 1;
        }
    }
}

/// Advances one slot by one flight step and writes the result back to the
/// registry record the slot is bound to.
fn step_and_store(m: &mut Missle, world: &mut World, dt: i64)
    requires
        old(world).wf(),
        old(m).wf(),
        old(m).entity.id < old(world).entities_view().len(),
        0 <= dt <= DT_LIMIT,
        old(m).can_step(dt as int),
    ensures
        final(m).wf(),
        *final(m) == old(m).step_spec(dt as int, old(world).offset() as int),
        final(m).entity.id == old(m).entity.id,
        final(world).wf(),
        final(world).entities_view() == old(world).entities_view().update(
            old(m).entity.id as int,
            final(m).entity,
        ),
        final(world).score() == old(world).score(),
        final(world).offset() == old(world).offset(),
        final(world).completed() == old(world).completed(),
        final(world).difficulty() == old(world).difficulty(),
        final(world).level_view() == old(world).level_view(),
        final(world).particles_view() == old(world).particles_view(),
{
    m.update(world, dt);
    world.set_entity(&m.entity);
}

/// Resolves one slot against the frame's active-entity snapshot and writes
/// the result back to the registry record the slot is bound to.
fn collide_and_store(m: &mut Missle, actives: &Vec<Entity>, world: &mut World)
    requires
        old(world).wf(),
        old(m).wf(),
        old(m).entity.id < old(world).entities_view().len(),
    ensures
        final(m).wf(),
        *final(m) == if old(m).hit_in(actives@) {
            old(m).reset_spec()
        } else {
            *old(m)
        },
        final(m).entity.id == old(m).entity.id,
        final(world).wf(),
        final(world).entities_view() == old(world).entities_view().update(
            old(m).entity.id as int,
            final(m).entity,
        ),
        final(world).score() == old(world).score(),
        final(world).offset() == old(world).offset(),
        final(world).completed() == old(world).completed(),
        final(world).difficulty() == old(world).difficulty(),
        final(world).level_view() == old(world).level_view(),
        final(world).particles_view() == old(world).particles_view(),
{
    m.late_update(actives);
    world.set_entity(&m.entity);
}

} // verus!
