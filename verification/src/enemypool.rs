//! The fixed-capacity enemy pool: deterministic slot acquisition, the
//! per-frame steering/cull pass, the return-fire pass, and the collision
//! pass against the frame's active-entity snapshot.
use vstd::prelude::*;
use crate::collision::{inside_windowborder_extended_sides, inside_windowborder_extended_sides_spec};
use crate::enemy::Enemy;
use crate::enemytypes::EnemyType;
use crate::entity::Entity;
use crate::geom::Vec2i;
use crate::missle::{lemma_filter_all_true, MisslePool};
use crate::world::World;
use crate::{PoolError, DT_LIMIT};

verus! {

/// The vertical slack of the enemy despawn window, in fixed-point steps.
pub const ENEMY_WINDOW_Y_SLACK: i64 = 200_000;

/// The horizontal slack of the enemy despawn window (left, right), in
/// fixed-point steps.
pub const ENEMY_WINDOW_X_LEFT: i64 = 200_000;

/// The right-hand horizontal slack of the enemy despawn window, in
/// fixed-point steps.
pub const ENEMY_WINDOW_X_RIGHT: i64 = 600_000;

/// An enemy stands inside the generous despawn window: only then is it
/// simulated; outside it is recycled without any award.
pub open spec fn enemy_in_window(e: Enemy, level_progress: int) -> bool {
    inside_windowborder_extended_sides_spec(
        e.entity.transform.rect,
        level_progress,
        ENEMY_WINDOW_Y_SLACK as int,
        Vec2i { x: ENEMY_WINDOW_X_LEFT, y: ENEMY_WINDOW_X_RIGHT },
    )
}

/// The fixed-capacity enemy pool.
pub struct EnemyPool {
    pool: Vec<Enemy>,
}

impl EnemyPool {
    /// The slots, in index order.
    pub closed spec fn pool_view(self) -> Seq<Enemy> {
        self.pool@
    }

    /// Every slot is well-formed, remembers its own index, and is bound to
    /// a distinct identity the registry holds.
    pub open spec fn wf(self, world_len: int) -> bool {
        &&& forall|i: int|
            0 <= i < self.pool_view().len() ==> (#[trigger] self.pool_view()[i]).wf()
                && self.pool_view()[i].enemy_id == i && self.pool_view()[i].entity.id < world_len
        &&& forall|i: int, j: int|
            0 <= i < self.pool_view().len() && 0 <= j < self.pool_view().len() && i != j ==> (
            #[trigger] self.pool_view()[i]).entity.id != (#[trigger] self.pool_view()[j]).entity.id
    }

    /// How many slots the pool holds.
    pub fn len(&self) -> (n: usize)
        ensures
            n == self.pool_view().len(),
    {
        self.pool.len()
    }

    /// Reads one slot.
    pub fn get_slot(&self, i: usize) -> (e: Enemy)
        requires
            i < self.pool_view().len(),
        ensures
            e == self.pool_view()[i as int],
    {
        self.pool[i]
    }

    /// An empty pool; `create_pool` gives it its capacity.
    pub fn new() -> (p: EnemyPool)
        ensures
            p.pool_view() == Seq::<Enemy>::empty(),
            forall|world_len: int| p.wf(world_len),
    {
        EnemyPool { pool: Vec::new() }
    }

    /// Preallocates `count` slots, registering one entity per slot and
    /// releasing each immediately: the pool starts fully inactive.
    pub fn create_pool(&mut self, count: usize, world: &mut World)
        requires
            old(world).wf(),
            old(world).entities_view().len() + count < usize::MAX,
        ensures
            final(world).wf(),
            final(self).wf(final(world).entities_view().len() as int),
            final(self).pool_view().len() == count,
            forall|i: int|
                0 <= i < count ==> {
                    &&& !(#[trigger] final(self).pool_view()[i]).entity.is_active
                    &&& final(self).pool_view()[i].enemy_id == i
                    &&& final(self).pool_view()[i].entity.id == old(world).entities_view().len() + i
                    &&& final(self).pool_view()[i].variant.weapon is None
                },
            final(world).entities_view().len() == old(world).entities_view().len() + count,
            forall|k: int|
                0 <= k < old(world).entities_view().len() ==> final(world).entities_view()[k] == old(world).entities_view()[k],
            final(world).actives_view() == old(world).actives_view(),
            final(world).score() == old(world).score(),
            final(world).offset() == old(world).offset(),
            final(world).completed() == old(world).completed(),
            final(world).difficulty() == old(world).difficulty(),
            final(world).level_view() == old(world).level_view(),
            final(world).particles_view() == old(world).particles_view(),
    {
        self.pool = Vec::new();
        let base = world.entity_count();
        let ghost base_actives = world.actives_view();
        let mut i: usize = 0;
        while i < count
            invariant
                i <= count,
                base == old(world).entities_view().len(),
                base + count < usize::MAX,
                world.wf(),
                world.entities_view().len() == base + i,
                self.pool@.len() == i,
                forall|j: int|
                    0 <= j < i ==> {
                        &&& !(#[trigger] self.pool@[j]).entity.is_active
                        &&& self.pool@[j].enemy_id == j
                        &&& self.pool@[j].entity.id == base + j
                        &&& self.pool@[j].variant.weapon is None
                        &&& self.pool@[j].wf()
                    },
                forall|k: int|
                    0 <= k < base ==> world.entities_view()[k] == old(world).entities_view()[k],
                world.actives_view() == base_actives,
                base_actives == old(world).actives_view(),
                world.score() == old(world).score(),
                world.offset() == old(world).offset(),
                world.completed() == old(world).completed(),
                world.difficulty() == old(world).difficulty(),
                world.level_view() == old(world).level_view(),
                world.particles_view() == old(world).particles_view(),
            decreases count - i,
        {
            let mut enemy = Enemy::new(i, world);
            enemy.reset();
            proof {
                lemma_filter_all_true(world.actives_view(), |a: Entity| a.id != enemy.entity.id);
            }
            world.set_entity(&enemy.entity);
            self.pool.push(enemy);
            i = i + 1;
        }
    }

    /// The lowest inactive slot, or `None` when every slot is active.
    fn get_free_slot(&self) -> (r: Option<usize>)
        ensures
            match r {
                Some(k) => k < self.pool_view().len() && !self.pool_view()[k as int].entity.is_active
                    && forall|j: int|
                    0 <= j < k ==> (#[trigger] self.pool_view()[j]).entity.is_active,
                None => forall|j: int|
                    0 <= j < self.pool_view().len() ==> (
                    #[trigger] self.pool_view()[j]).entity.is_active,
            },
    {
        let n = self.pool.len();
        let mut i: usize = 0;
        while i < n
            invariant
                n == self.pool@.len(),
                i <= n,
                forall|j: int| 0 <= j < i ==> (#[trigger] self.pool@[j]).entity.is_active,
            decreases n - i,
        {
            if !self.pool[i].entity.is_active {
                return Some(i);
            }
            i = i + 1;
        }
        None
    }

    /// Acquires the lowest inactive slot for one enemy of the given kind
    /// at the spawner's position: the slot takes the kind's stats and
    /// size, becomes active, and is written back to the registry.  With
    /// every slot active the request fails explicitly and nothing changes.
    pub fn spawn_enemy(
        &mut self,
        spawner_position: Vec2i,
        spawner_type: &EnemyType,
        world: &mut World,
    ) -> (r: Result<usize, PoolError>)
        requires
            old(world).wf(),
            old(self).wf(old(world).entities_view().len() as int),
            old(world).entities_view().len() < usize::MAX - 1,
            spawner_position.in_range(),
        ensures
            final(world).wf(),
            final(self).wf(final(world).entities_view().len() as int),
            final(self).pool_view().len() == old(self).pool_view().len(),
            final(world).score() == old(world).score(),
            final(world).offset() == old(world).offset(),
            final(world).completed() == old(world).completed(),
            final(world).difficulty() == old(world).difficulty(),
            final(world).level_view() == old(world).level_view(),
            final(world).particles_view() == old(world).particles_view(),
            match r {
                Ok(slot) => {
                    &&& slot < old(self).pool_view().len()
                    &&& !old(self).pool_view()[slot as int].entity.is_active
                    &&& forall|j: int|
                        0 <= j < slot ==> (#[trigger] old(self).pool_view()[j]).entity.is_active
                    &&& final(self).pool_view()[slot as int].entity.is_active
                    &&& final(self).pool_view()[slot as int].entity.id == old(self).pool_view()[slot as int].entity.id
                    &&& final(self).pool_view()[slot as int].enemy_id == old(self).pool_view()[slot as int].enemy_id
                    &&& final(world).entities_view()[old(self).pool_view()[slot as int].entity.id as int] == final(self).pool_view()[slot as int].entity
                    &&& final(self).pool_view()[slot as int].entity.transform.position
                        == spawner_position
                    &&& final(self).pool_view()[slot as int].entity.entity_params == final(self).pool_view()[slot as int].variant.params
                    &&& (*spawner_type == EnemyType::Default ==> final(self).pool_view()[slot as int].variant.weapon is None)
                    &&& forall|j: int|
                        0 <= j < old(self).pool_view().len() && j != slot ==> (
                        #[trigger] final(self).pool_view()[j]) == old(self).pool_view()[j]
                    &&& old(world).entities_view().len() <= final(world).entities_view().len()
                        <= old(world).entities_view().len() + 1
                },
                Err(e) => {
                    &&& e == PoolError::Exhausted
                    &&& forall|j: int|
                        0 <= j < old(self).pool_view().len() ==> (
                        #[trigger] old(self).pool_view()[j]).entity.is_active
                    &&& final(self).pool_view() == old(self).pool_view()
                    &&& final(world).entities_view() == old(world).entities_view()
                    &&& final(world).actives_view() == old(world).actives_view()
                },
            },
    {
        let free_slot = self.get_free_slot();
        match free_slot {
            Some(slot) => {
                let mut e = self.pool[slot];
                e.set_enemytype(spawner_type, world);
                match e.variant.weapon {
                    Some(weapon) => {
                        let mut w = weapon;
                        w.init();
                        e.variant.weapon = Some(w);
                    },
                    None => {},
                }
                e.entity.SetActive(true);
                e.entity.transform.set_position(spawner_position);
                self.pool.set(slot, e);
                world.set_entity(&e.entity);
                Ok(slot)
            },
            None => Err(PoolError::Exhausted),
        }
    }

    /// Return fire: every active, armed enemy pulls its trigger once.
    pub fn enemy_shoot(&mut self, misslepool: &mut MisslePool, world: &mut World, dt: i64)
        requires
            old(world).wf(),
            old(self).wf(old(world).entities_view().len() as int),
            old(misslepool).wf(old(world).entities_view().len() as int),
            0 <= dt <= DT_LIMIT,
        ensures
            final(world).wf(),
            final(self).wf(final(world).entities_view().len() as int),
            final(misslepool).wf(final(world).entities_view().len() as int),
            final(misslepool).pool_view().len() == old(misslepool).pool_view().len(),
            final(self).pool_view().len() == old(self).pool_view().len(),
            final(world).entities_view().len() == old(world).entities_view().len(),
            final(world).score() == old(world).score(),
            final(world).offset() == old(world).offset(),
            final(world).completed() == old(world).completed(),
            final(world).difficulty() == old(world).difficulty(),
            final(world).level_view() == old(world).level_view(),
            final(world).particles_view() == old(world).particles_view(),
            forall|i: int|
                0 <= i < old(self).pool_view().len() ==> (#[trigger] final(self).pool_view()[i]).entity
                    == old(self).pool_view()[i].entity && final(self).pool_view()[i].enemy_id == old(self).pool_view()[i].enemy_id,
            forall|i: int|
                0 <= i < old(self).pool_view().len() && !((
                #[trigger] old(self).pool_view()[i]).entity.is_active && old(self).pool_view()[i].variant.weapon is Some) ==> final(self).pool_view()[i] == old(self).pool_view()[i],
            forall|i: int|
                0 <= i < old(self).pool_view().len() && (
                #[trigger] old(self).pool_view()[i]).entity.is_active && old(self).pool_view()[i].variant.weapon is Some && crate::weapon::in_fire_range(
                    old(self).pool_view()[i].variant.weapon->Some_0.entity.transform.position,
                ) ==> final(self).pool_view()[i].variant.weapon is Some && final(self).pool_view()[i].variant.weapon->Some_0.cooldown_t == (if old(self).pool_view()[i].variant.weapon->Some_0.cooldown_t <= 0 {
                    crate::weapon::WEAPON_COOLDOWN as int
                } else {
                    old(self).pool_view()[i].variant.weapon->Some_0.cooldown_t - old(self).pool_view()[i].entity.entity_params.firerate * dt
                }),
            forall|i: int|
                0 <= i < old(misslepool).pool_view().len() && (
                #[trigger] old(misslepool).pool_view()[i]).entity.is_active ==> final(misslepool).pool_view()[i] == old(misslepool).pool_view()[i],
            (forall|i: int|
                0 <= i < old(self).pool_view().len() && (
                #[trigger] old(self).pool_view()[i]).entity.is_active && old(self).pool_view()[i].variant.weapon is Some ==> old(self).pool_view()[i].variant.weapon->Some_0.cooldown_t > 0 || !crate::weapon::in_fire_range(
                    old(self).pool_view()[i].variant.weapon->Some_0.entity.transform.position,
                )) ==> final(misslepool).pool_view() == old(misslepool).pool_view() && final(world).entities_view() == old(world).entities_view(),
    {
        let n = self.pool.len();
        let mut i: usize = 0;
        while i < n
            invariant
                n == self.pool@.len(),
                n == old(self).pool_view().len(),
                i <= n,
                world.wf(),
                self.wf(world.entities_view().len() as int),
                misslepool.wf(world.entities_view().len() as int),
                (forall|j: int|
                    0 <= j < n && (#[trigger] old(self).pool_view()[j]).entity.is_active && old(self).pool_view()[j].variant.weapon is Some ==> old(self).pool_view()[j].variant.weapon->Some_0.cooldown_t > 0
                        || !crate::weapon::in_fire_range(
                        old(self).pool_view()[j].variant.weapon->Some_0.entity.transform.position,
                    )) ==> misslepool.pool_view() == old(misslepool).pool_view()
                    && world.entities_view() == old(world).entities_view(),
                0 <= dt <= DT_LIMIT,
                world.entities_view().len() == old(world).entities_view().len(),
                world.score() == old(world).score(),
                world.offset() == old(world).offset(),
                world.completed() == old(world).completed(),
                world.difficulty() == old(world).difficulty(),
                world.level_view() == old(world).level_view(),
                world.particles_view() == old(world).particles_view(),
                forall|j: int|
                    0 <= j < n ==> (#[trigger] self.pool@[j]).entity == old(self).pool_view()[j].entity
                        && self.pool@[j].enemy_id == old(self).pool_view()[j].enemy_id,
                forall|j: int| i <= j < n ==> (#[trigger] self.pool@[j]) == old(self).pool_view()[j],
                forall|j: int|
                    0 <= j < i && !((#[trigger] old(self).pool_view()[j]).entity.is_active && old(self).pool_view()[j].variant.weapon is Some) ==> self.pool@[j] == old(self).pool_view()[j],
                forall|j: int|
                    0 <= j < i && (#[trigger] old(self).pool_view()[j]).entity.is_active && old(self).pool_view()[j].variant.weapon is Some && crate::weapon::in_fire_range(
                        old(self).pool_view()[j].variant.weapon->Some_0.entity.transform.position,
                    ) ==> self.pool@[j].variant.weapon is Some
                        && self.pool@[j].variant.weapon->Some_0.cooldown_t == (if old(self).pool_view()[j].variant.weapon->Some_0.cooldown_t <= 0 {
                        crate::weapon::WEAPON_COOLDOWN as int
                    } else {
                        old(self).pool_view()[j].variant.weapon->Some_0.cooldown_t - old(self).pool_view()[j].entity.entity_params.firerate * dt
                    }),
                forall|j: int|
                    0 <= j < old(misslepool).pool_view().len() && (
                    #[trigger] old(misslepool).pool_view()[j]).entity.is_active ==> misslepool.pool_view()[j]
                        == old(misslepool).pool_view()[j],
                misslepool.pool_view().len() == old(misslepool).pool_view().len(),
            decreases n - i,
        {
            let is_active = self.pool[i].entity.is_active;
            let armed = self.pool[i].variant.has_weapon();
            if is_active && armed {
                let mut e = self.pool[i];
                let _ = e.shoot(misslepool, world, dt);
                self.pool.set(i, e);
            }
            i = i + 1;
        }
    }

    /// The per-frame pass: every active enemy outside the generous despawn
    /// window is recycled without award; every active enemy inside it is
    /// simulated (steering, hit-feedback, the destroyed exit path) and
    /// written back to the registry.  If no simulated enemy was destroyed
    /// this frame, the score is untouched; it never decreases.
    #[verifier::rlimit(100)]
    pub fn update(&mut self, world: &mut World, dt: i64)
        requires
            old(world).wf(),
            old(self).wf(old(world).entities_view().len() as int),
            0 <= dt <= DT_LIMIT,
            forall|i: int|
                0 <= i < old(self).pool_view().len() && (
                #[trigger] old(self).pool_view()[i]).entity.is_active ==> old(self).pool_view()[i].can_step(dt as int),
        ensures
            final(world).wf(),
            final(self).wf(final(world).entities_view().len() as int),
            final(self).pool_view().len() == old(self).pool_view().len(),
            final(world).entities_view().len() == old(world).entities_view().len(),
            final(world).offset() == old(world).offset(),
            final(world).completed() == old(world).completed(),
            final(world).difficulty() == old(world).difficulty(),
            final(world).level_view() == old(world).level_view(),
            final(world).particles_view() == old(world).particles_view(),
            forall|i: int|
                0 <= i < old(self).pool_view().len() && !(
                #[trigger] old(self).pool_view()[i]).entity.is_active ==> final(self).pool_view()[i] == old(self).pool_view()[i],
            forall|i: int|
                0 <= i < old(self).pool_view().len() && (
                #[trigger] old(self).pool_view()[i]).entity.is_active && !enemy_in_window(
                    old(self).pool_view()[i],
                    old(world).offset() as int,
                ) ==> final(self).pool_view()[i] == old(self).pool_view()[i].reset_spec(),
            forall|i: int|
                0 <= i < old(self).pool_view().len() && (
                #[trigger] old(self).pool_view()[i]).entity.is_active ==> final(world).entities_view()[old(self).pool_view()[i].entity.id as int] == final(self).pool_view()[i].entity,
            forall|i: int|
                0 <= i < old(self).pool_view().len() && (
                #[trigger] old(self).pool_view()[i]).entity.is_active && enemy_in_window(
                    old(self).pool_view()[i],
                    old(world).offset() as int,
                ) && old(self).pool_view()[i].entity.entity_params.health <= 0 ==> final(self).pool_view()[i] == old(self).pool_view()[i].reset_spec(),
            forall|i: int|
                0 <= i < old(self).pool_view().len() && (
                #[trigger] old(self).pool_view()[i]).entity.is_active && enemy_in_window(
                    old(self).pool_view()[i],
                    old(world).offset() as int,
                ) && old(self).pool_view()[i].entity.entity_params.health > 0 ==> {
                    &&& final(self).pool_view()[i].entity.is_active
                    &&& final(self).pool_view()[i].entity.entity_params == old(self).pool_view()[i].entity.entity_params
                    &&& final(self).pool_view()[i].entity.hit_feedback_timer == (if old(self).pool_view()[i].entity.hit_feedback_timer > 0 {
                        old(self).pool_view()[i].entity.hit_feedback_timer - dt
                    } else {
                        old(self).pool_view()[i].entity.hit_feedback_timer as int
                    })
                },
            old(world).score() <= final(world).score(),
            (forall|i: int|
                0 <= i < old(self).pool_view().len() && (
                #[trigger] old(self).pool_view()[i]).entity.is_active && enemy_in_window(
                    old(self).pool_view()[i],
                    old(world).offset() as int,
                ) ==> old(self).pool_view()[i].entity.entity_params.health > 0) ==> final(world).score() == old(world).score(),
    {
        let n = self.pool.len();
        let offset = world.get_level_offset();
        let mut i: usize = 0;
        while i < n
            invariant
                n == self.pool@.len(),
                n == old(self).pool_view().len(),
                i <= n,
                world.wf(),
                old(self).wf(old(world).entities_view().len() as int),
                0 <= dt <= DT_LIMIT,
                offset == old(world).offset(),
                forall|j: int|
                    0 <= j < n && (#[trigger] old(self).pool_view()[j]).entity.is_active ==> old(self).pool_view()[j].can_step(dt as int),
                world.entities_view().len() == old(world).entities_view().len(),
                world.offset() == old(world).offset(),
                world.completed() == old(world).completed(),
                world.difficulty() == old(world).difficulty(),
                world.level_view() == old(world).level_view(),
                world.particles_view() == old(world).particles_view(),
                forall|j: int| i <= j < n ==> (#[trigger] self.pool@[j]) == old(self).pool_view()[j],
                forall|j: int|
                    0 <= j < i ==> (#[trigger] self.pool@[j]).wf() && self.pool@[j].enemy_id == j
                        && self.pool@[j].entity.id == old(self).pool_view()[j].entity.id,
                forall|j: int|
                    0 <= j < i && !(#[trigger] old(self).pool_view()[j]).entity.is_active
                        ==> self.pool@[j] == old(self).pool_view()[j],
                forall|j: int|
                    0 <= j < i && (#[trigger] old(self).pool_view()[j]).entity.is_active
                        && !enemy_in_window(old(self).pool_view()[j], old(world).offset() as int)
                        ==> self.pool@[j] == old(self).pool_view()[j].reset_spec(),
                forall|j: int|
                    0 <= j < i && (#[trigger] old(self).pool_view()[j]).entity.is_active
                        ==> world.entities_view()[old(self).pool_view()[j].entity.id as int]
                        == self.pool@[j].entity,
                forall|j: int|
                    0 <= j < i && (#[trigger] old(self).pool_view()[j]).entity.is_active
                        && enemy_in_window(old(self).pool_view()[j], old(world).offset() as int)
                        && old(self).pool_view()[j].entity.entity_params.health <= 0
                        ==> self.pool@[j] == old(self).pool_view()[j].reset_spec(),
                forall|j: int|
                    0 <= j < i && (#[trigger] old(self).pool_view()[j]).entity.is_active
                        && enemy_in_window(old(self).pool_view()[j], old(world).offset() as int)
                        && old(self).pool_view()[j].entity.entity_params.health > 0 ==> {
                        &&& self.pool@[j].entity.is_active
                        &&& self.pool@[j].entity.entity_params == old(self).pool_view()[j].entity.entity_params
                        &&& self.pool@[j].entity.hit_feedback_timer == (if old(self).pool_view()[j].entity.hit_feedback_timer > 0 {
                            old(self).pool_view()[j].entity.hit_feedback_timer - dt
                        } else {
                            old(self).pool_view()[j].entity.hit_feedback_timer as int
                        })
                    },
                old(world).score() <= world.score(),
                (forall|j: int|
                    0 <= j < i && (#[trigger] old(self).pool_view()[j]).entity.is_active
                        && enemy_in_window(old(self).pool_view()[j], old(world).offset() as int)
                        ==> old(self).pool_view()[j].entity.entity_params.health > 0) ==> world.score()
                    == old(world).score(),
            decreases n - i,
        {
            if self.pool[i].entity.is_active {
                let mut e = self.pool[i];
                let inside = inside_windowborder_extended_sides(
                    e.entity.transform.rect,
                    offset,
                    ENEMY_WINDOW_Y_SLACK,
                    Vec2i { x: ENEMY_WINDOW_X_LEFT, y: ENEMY_WINDOW_X_RIGHT },
                );
                if !inside {
                    e.reset();
                    world.set_entity(&e.entity);
                } else {
                    e.update(world, dt);
                    world.set_entity(&e.entity);
                }
                self.pool.set(i, e);
            }
            i = i + 1;
        }
    }

    /// The collision pass: every active slot is resolved against every
    /// entity in the frame's active snapshot, in snapshot order; inactive
    /// slots are skipped entirely, as are inactive snapshot entries.
    /// Positions never change here.
    pub fn late_update(&mut self, world: &World)
        requires
            world.wf(),
        ensures
            final(self).pool_view().len() == old(self).pool_view().len(),
            forall|i: int|
                0 <= i < old(self).pool_view().len() && !(
                #[trigger] old(self).pool_view()[i]).entity.is_active ==> final(self).pool_view()[i] == old(self).pool_view()[i],
            forall|i: int|
                0 <= i < old(self).pool_view().len() && (
                #[trigger] old(self).pool_view()[i]).entity.is_active ==> final(self).pool_view()[i] == old(self).pool_view()[i].scan_prefix(
                    world.actives_view(),
                    world.actives_view().len() as int,
                ),
            forall|i: int|
                0 <= i < old(self).pool_view().len() ==> {
                    &&& (#[trigger] final(self).pool_view()[i]).enemy_id == old(self).pool_view()[i].enemy_id
                    &&& final(self).pool_view()[i].entity.id == old(self).pool_view()[i].entity.id
                    &&& final(self).pool_view()[i].entity.transform == old(self).pool_view()[i].entity.transform
                    &&& final(self).pool_view()[i].entity.is_active == old(self).pool_view()[i].entity.is_active
                    &&& final(self).pool_view()[i].variant == old(self).pool_view()[i].variant
                    &&& (old(self).pool_view()[i].wf() ==> final(self).pool_view()[i].wf())
                },
    {
        let n = self.pool.len();
        let actives = world.get_actives();
        let m = actives.len();
        let mut i: usize = 0;
        while i < n
            invariant
                n == self.pool@.len(),
                m == world.actives_view().len(),
                actives@ == world.actives_view(),
                i <= n,
                forall|j: int| i <= j < n ==> (#[trigger] self.pool@[j]) == old(self).pool_view()[j],
                forall|j: int|
                    0 <= j < i && !(#[trigger] old(self).pool_view()[j]).entity.is_active
                        ==> self.pool@[j] == old(self).pool_view()[j],
                forall|j: int|
                    0 <= j < i && (#[trigger] old(self).pool_view()[j]).entity.is_active
                        ==> self.pool@[j] == old(self).pool_view()[j].scan_prefix(
                        world.actives_view(),
                        m as int,
                    ),
                forall|j: int|
                    0 <= j < i ==> {
                        &&& (#[trigger] self.pool@[j]).enemy_id == old(self).pool_view()[j].enemy_id
                        &&& self.pool@[j].entity.id == old(self).pool_view()[j].entity.id
                        &&& self.pool@[j].entity.transform == old(self).pool_view()[j].entity.transform
                        &&& self.pool@[j].entity.is_active == old(self).pool_view()[j].entity.is_active
                        &&& self.pool@[j].variant == old(self).pool_view()[j].variant
                        &&& (old(self).pool_view()[j].wf() ==> self.pool@[j].wf())
                    },
            decreases n - i,
        {
            if self.pool[i].entity.is_active {
                let mut e = self.pool[i];
                let mut k: usize = 0;
                while k < m
                    invariant
                        m == world.actives_view().len(),
                        actives@ == world.actives_view(),
                        k <= m,
                        e == old(self).pool_view()[i as int].scan_prefix(
                            world.actives_view(),
                            k as int,
                        ),
                        e.enemy_id == old(self).pool_view()[i as int].enemy_id,
                        e.entity.id == old(self).pool_view()[i as int].entity.id,
                        e.entity.transform == old(self).pool_view()[i as int].entity.transform,
                        e.entity.is_active == old(self).pool_view()[i as int].entity.is_active,
                        e.variant == old(self).pool_view()[i as int].variant,
                        old(self).pool_view()[i as int].wf() ==> e.wf(),
                    decreases m - k,
                {
                    e.on_collision(&actives[k]);
                    k = k + 1;
                }
                self.pool.set(i, e);
            }
            i = i + 1;
        }
    }
}

} // verus!