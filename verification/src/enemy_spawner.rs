//! Enemy spawners: a countdown timer and a hard quota of spawn requests.
//!
//! A spawner accumulates frame time; when its countdown reaches zero it
//! issues exactly one acquire request to the shared enemy pool, rearms the
//! countdown, and counts the request against its quota.  Once the quota is
//! reached it never issues another request, however much time passes.
use vstd::prelude::*;
use crate::enemypool::EnemyPool;
use crate::enemytypes::EnemyType;
use crate::entity::{Entity, EntityName, Tag};
use crate::geom::{Transform, Vec2i};
use crate::world::World;
use crate::{COORD_LIMIT, DT_LIMIT};

verus! {

/// The countdown a spawn rearms at difficulty zero, in milliseconds.
pub const SPAWN_DURATION_BASE: i64 = 3500;

/// The shortest countdown difficulty can force, in milliseconds.
pub const SPAWN_DURATION_FLOOR: i64 = 800;

/// Where a spawner's enemies appear: its position shifted by half its
/// scaled size, so they start at the tile's centre.
pub open spec fn spawn_position_of(e: Entity) -> Vec2i {
    Vec2i {
        x: (e.transform.position.x + e.transform.full_w() / 2) as i64,
        y: (e.transform.position.y + e.transform.full_h() / 2) as i64,
    }
}

/// The spawn position stays inside the coordinate range: only then does a
/// request reach the pool.
pub open spec fn spawn_placement_in_range(e: Entity) -> bool {
    &&& e.transform.position.x + e.transform.full_w() / 2 <= COORD_LIMIT
    &&& e.transform.position.y + e.transform.full_h() / 2 <= COORD_LIMIT
    &&& e.transform.position.x + e.transform.full_w() / 2 >= -COORD_LIMIT
    &&& e.transform.position.y + e.transform.full_h() / 2 >= -COORD_LIMIT
}

/// A spawner: its world entity, the enemy kind it issues, its quota, how
/// many requests it has issued, its rearm interval and the live countdown.
#[derive(Clone, Copy, PartialEq, Eq, Structural, Debug)]
pub struct EnemySpawner {
    pub entity: Entity,
    pub spawner_type: EnemyType,
    pub spawn_count: usize,
    pub spawned: usize,
    pub spawn_duration: i64,
    pub time: i64,
}

impl EnemySpawner {
    /// Entity in range, the issued count within the quota, interval and
    /// countdown bounded.
    pub open spec fn wf(self) -> bool {
        &&& self.entity.wf()
        &&& self.spawned <= self.spawn_count
        &&& SPAWN_DURATION_FLOOR <= self.spawn_duration <= SPAWN_DURATION_BASE
        &&& -DT_LIMIT <= self.time <= SPAWN_DURATION_BASE
    }

    /// Registers a spawner for `count` enemies of the kind `spawner_type`
    /// names (an unknown number falls back to the default kind).  The
    /// rearm interval shortens with difficulty, two hundred milliseconds a
    /// level, but never below the floor.
    pub fn create_spawner(count: usize, spawner_type: usize, world: &mut World) -> (s: EnemySpawner)
        requires
            old(world).wf(),
            old(world).entities_view().len() < usize::MAX,
        ensures
            final(world).wf(),
            s.wf(),
            s.entity == Entity::fresh_spec(
                EntityName::EnemySpawner,
                Tag::Spawner,
                old(world).entities_view().len() as usize,
            ),
            s.spawn_count == count,
            s.spawned == 0,
            s.time == 200,
            s.spawner_type == (match spawner_type {
                0 => EnemyType::Default,
                1 => EnemyType::Gunner,
                2 => EnemyType::Tank,
                3 => EnemyType::HeavyGunner,
                4 => EnemyType::Exploder,
                5 => EnemyType::Boss,
                _ => EnemyType::Default,
            }),
            s.spawn_duration == (if SPAWN_DURATION_BASE - 200 * (
            crate::entityparam_settings::eff_difficulty(*old(world))) <= SPAWN_DURATION_FLOOR {
                SPAWN_DURATION_FLOOR as int
            } else {
                SPAWN_DURATION_BASE - 200 * crate::entityparam_settings::eff_difficulty(
                    *old(world),
                )
            }),
            final(world).entities_view() == old(world).entities_view().push(s.entity),
            final(world).actives_view() == old(world).actives_view(),
            final(world).score() == old(world).score(),
            final(world).offset() == old(world).offset(),
            final(world).completed() == old(world).completed(),
            final(world).difficulty() == old(world).difficulty(),
            final(world).level_view() == old(world).level_view(),
            final(world).particles_view() == old(world).particles_view(),
    {
        let entity = Entity::new(EntityName::EnemySpawner, Tag::Spawner, world);
        let enemy_type = match spawner_type {
            0 => EnemyType::Default,
            1 => EnemyType::Gunner,
            2 => EnemyType::Tank,
            3 => EnemyType::HeavyGunner,
            4 => EnemyType::Exploder,
            5 => EnemyType::Boss,
            _ => EnemyType::Default,
        };
        let raw = world.get_difficulty();
        let d: i64 = if raw > 1000 {
            1000
        } else {
            raw as i64
        };
        let mut spawn_duration: i64 = SPAWN_DURATION_BASE - 200 * d;
        if spawn_duration <= SPAWN_DURATION_FLOOR {
            spawn_duration = SPAWN_DURATION_FLOOR;
        }
        EnemySpawner {
            entity,
            spawner_type: enemy_type,
            spawn_count: count,
            spawned: 0,
            spawn_duration,
            time: 200,
        }
    }

    /// Copies a transform onto the spawner's entity.
    pub fn set_transform(&mut self, transform: &Transform)
        requires
            transform.wf(),
        ensures
            *final(self) == (EnemySpawner {
                entity: Entity { transform: *transform, ..old(self).entity },
                ..*old(self)
            }),
            old(self).wf() ==> final(self).wf(),
    {
        self.entity.transform = *transform;
    }

    /// Issues one acquire request to the enemy pool, at the spawner's
    /// position shifted by half its scaled size (so enemies appear at the
    /// tile's centre).  A spawner standing too close to the coordinate
    /// limit keeps its request to itself.
    #[verifier::rlimit(100)]
    #[verifier::spinoff_prover]
    pub fn spawn(&mut self, enemypool: &mut EnemyPool, world: &mut World)
        requires
            old(self).wf(),
            old(world).wf(),
            old(enemypool).wf(old(world).entities_view().len() as int),
            old(world).entities_view().len() < usize::MAX - 1,
        ensures
            *final(self) == *old(self),
            final(world).wf(),
            final(enemypool).wf(final(world).entities_view().len() as int),
            final(enemypool).pool_view().len() == old(enemypool).pool_view().len(),
            forall|i: int|
                0 <= i < old(enemypool).pool_view().len() && (
                #[trigger] old(enemypool).pool_view()[i]).entity.is_active ==> final(enemypool).pool_view()[i] == old(enemypool).pool_view()[i],
            old(world).entities_view().len() <= final(world).entities_view().len() <= old(world).entities_view().len() + 1,
            final(world).score() == old(world).score(),
            final(world).offset() == old(world).offset(),
            final(world).completed() == old(world).completed(),
            final(world).difficulty() == old(world).difficulty(),
            final(world).level_view() == old(world).level_view(),
            final(world).particles_view() == old(world).particles_view(),
            !spawn_placement_in_range(old(self).entity) ==> final(enemypool).pool_view() == old(enemypool).pool_view() && final(world).entities_view() == old(world).entities_view(),
            spawn_placement_in_range(old(self).entity) && (forall|j: int|
                0 <= j < old(enemypool).pool_view().len() ==> (
                #[trigger] old(enemypool).pool_view()[j]).entity.is_active) ==> final(enemypool).pool_view() == old(enemypool).pool_view() && final(world).entities_view() == old(world).entities_view(),
    {
        let half = self.entity.transform.get_halfsize();
        let px = self.entity.transform.position.x;
        let py = self.entity.transform.position.y;
        if px <= COORD_LIMIT - half.x && py <= COORD_LIMIT - half.y && px + half.x >= -COORD_LIMIT
            && py + half.y >= -COORD_LIMIT {
            let position = Vec2i { x: px + half.x, y: py + half.y };
            let spawner_type = self.spawner_type;
            let outcome = enemypool.spawn_enemy(position, &spawner_type, world);
            proof {
                if outcome is Ok {
                    let slot = outcome->Ok_0 as int;
                    assert(0 <= slot < old(enemypool).pool_view().len());
                }
            }
        }
    }

    /// One spawner frame.  With quota left, the countdown runs down by the
    /// frame time; the tick on which it has run out issues exactly one
    /// acquire request, rearms the countdown to the full interval, and
    /// counts the request -- the return value says whether this tick
    /// issued one.  With the quota reached, nothing happens at all,
    /// whatever time passes.  The spawner's record is written back to the
    /// registry either way.
    #[verifier::rlimit(100)]
    #[verifier::spinoff_prover]
    pub fn update(&mut self, enemypool: &mut EnemyPool, world: &mut World, dt: i64) -> (issued:
        bool)
        requires
            old(self).wf(),
            old(world).wf(),
            old(enemypool).wf(old(world).entities_view().len() as int),
            0 <= dt <= DT_LIMIT,
            old(world).entities_view().len() < usize::MAX - 1,
        ensures
            final(self).wf(),
            final(world).wf(),
            final(enemypool).wf(final(world).entities_view().len() as int),
            final(enemypool).pool_view().len() == old(enemypool).pool_view().len(),
            forall|i: int|
                0 <= i < old(enemypool).pool_view().len() && (
                #[trigger] old(enemypool).pool_view()[i]).entity.is_active ==> final(enemypool).pool_view()[i] == old(enemypool).pool_view()[i],
            old(world).entities_view().len() <= final(world).entities_view().len() <= old(world).entities_view().len() + 1,
            issued <==> (old(self).spawned < old(self).spawn_count && old(self).time <= 0),
            final(self).spawned == old(self).spawned + (if issued {
                1int
            } else {
                0int
            }),
            final(self).spawned <= final(self).spawn_count,
            final(self).spawn_count == old(self).spawn_count,
            final(self).spawner_type == old(self).spawner_type,
            final(self).spawn_duration == old(self).spawn_duration,
            final(self).entity == old(self).entity,
            issued ==> final(self).time == old(self).spawn_duration,
            !issued && old(self).spawned < old(self).spawn_count ==> final(self).time == old(self).time - dt,
            old(self).spawned >= old(self).spawn_count ==> {
                &&& final(self).time == old(self).time
                &&& final(self).spawned == old(self).spawned
                &&& final(enemypool).pool_view() == old(enemypool).pool_view()
            },
            !issued ==> final(enemypool).pool_view() == old(enemypool).pool_view(),
            issued && !spawn_placement_in_range(old(self).entity) ==> final(enemypool).pool_view() == old(enemypool).pool_view(),
            issued && spawn_placement_in_range(old(self).entity) && (forall|j: int|
                0 <= j < old(enemypool).pool_view().len() ==> (
                #[trigger] old(enemypool).pool_view()[j]).entity.is_active) ==> final(enemypool).pool_view() == old(enemypool).pool_view(),
            final(world).score() == old(world).score(),
            final(world).offset() == old(world).offset(),
            final(world).completed() == old(world).completed(),
            final(world).difficulty() == old(world).difficulty(),
            final(world).level_view() == old(world).level_view(),
            final(world).particles_view() == old(world).particles_view(),
    {
        let mut issued = false;
        if self.spawned < self.spawn_count {
            if self.time > 0 {
                self.time = self.time - dt;
            } else {
                self.time = self.spawn_duration;
                self.spawn(enemypool, world);
                self.spawned = self.spawned + 1;
                issued = true;
            }
        }
        world.set_entity(&self.entity);
        issued
    }
}

/// Law: a spawner whose quota is spent is inert -- the update issues no
/// request and moves neither the issued count nor the countdown, no
/// matter how often or how long it keeps being ticked.
pub proof fn lemma_spawner_quota_stops(spawned: int, spawn_count: int, time: int)
    requires
        spawned >= spawn_count,
    ensures
        !(spawned < spawn_count && time <= 0),
{
}

} // verus!
