//! The world registry: the canonical, append-only list of entities, the
//! per-frame "active subset" cache, the score counter and the scroll
//! offset.
//!
//! Identity equals position: the entity registered when the list had
//! length `n` carries id `n` and keeps it for the whole session.  Records
//! are overwritten in place through `set_entity`; nothing is ever removed,
//! deactivation is the recycling signal.
use vstd::prelude::*;
use crate::entity::{Entity, Tag};
use crate::level::Level;
use crate::particle_sys::{ParticleSystem, ParticleSystemPool};
use crate::{COORD_LIMIT, DT_LIMIT, LEVEL_SPEED};

verus! {

broadcast use vstd::seq_lib::group_seq_properties;

/// Every entity sits at the index its id names, and every record is
/// well-formed.
pub open spec fn wf_entities(s: Seq<Entity>) -> bool {
    forall|i: int|
        0 <= i < s.len() ==> (#[trigger] s[i]).id == i && s[i].wf()
}

/// Every cached record is well-formed and names an identity the registry
/// holds.
pub open spec fn wf_actives(cache: Seq<Entity>, registry_len: int) -> bool {
    forall|j: int|
        0 <= j < cache.len() ==> (#[trigger] cache[j]).wf() && cache[j].id < registry_len
}

/// The first registry record carrying `tag`, scanning upward from index
/// `i`.
pub open spec fn find_by_tag_from(s: Seq<Entity>, tag: Tag, i: int) -> Option<Entity>
    decreases s.len() - i,
{
    if i < 0 || i >= s.len() {
        None
    } else if s[i].tag == tag {
        Some(s[i])
    } else {
        find_by_tag_from(s, tag, i + 1)
    }
}

/// The first registry record carrying `tag`.
pub open spec fn find_by_tag_spec(s: Seq<Entity>, tag: Tag) -> Option<Entity> {
    find_by_tag_from(s, tag, 0)
}

/// Filtering a sequence extended by one element keeps the element exactly
/// when it satisfies the predicate.
proof fn lemma_filter_push(s: Seq<Entity>, e: Entity, pred: spec_fn(Entity) -> bool)
    ensures
        s.push(e).filter(pred) == if pred(e) {
            s.filter(pred).push(e)
        } else {
            s.filter(pred)
        },
{
    reveal(Seq::filter);
    assert(s.push(e).drop_last() =~= s);
    assert(s.push(e).last() == e);
}

/// A tag lookup that succeeds hands back one of the registry's own
/// records, carrying the requested tag.
pub proof fn lemma_find_by_tag_from_member(s: Seq<Entity>, tag: Tag, i: int)
    ensures
        match find_by_tag_from(s, tag, i) {
            Some(e) => exists|j: int| i <= j < s.len() && s[j] == e && (#[trigger] s[j]).tag == tag,
            None => true,
        },
    decreases s.len() - i,
{
    if 0 <= i < s.len() {
        if s[i].tag != tag {
            lemma_find_by_tag_from_member(s, tag, i + 1);
        }
    }
}

/// The record a successful tag lookup returns lives in the registry: in a
/// well-formed registry it is itself well-formed.
pub proof fn lemma_find_by_tag_member(s: Seq<Entity>, tag: Tag)
    ensures
        match find_by_tag_spec(s, tag) {
            Some(e) => s.contains(e) && e.tag == tag && (wf_entities(s) ==> e.wf()),
            None => true,
        },
{
    lemma_find_by_tag_from_member(s, tag, 0);
    match find_by_tag_spec(s, tag) {
        Some(e) => {
            let j = choose|j: int| 0 <= j < s.len() && s[j] == e && (#[trigger] s[j]).tag == tag;
            assert(s.contains(e));
        },
        None => {},
    }
}

/// Law: the active subset computed by `refresh_active_subset` holds an
/// entity exactly when the registry holds it and its active flag is set --
/// no stale members, no missing ones, whatever replacements came before.
pub proof fn lemma_active_subset_exact(s: Seq<Entity>, e: Entity)
    ensures
        s.filter(|x: Entity| x.is_active).contains(e) <==> s.contains(e) && e.is_active,
{
    let pred = |x: Entity| x.is_active;
    if s.filter(pred).contains(e) {
        s.lemma_filter_contains_rev(pred, e);
        let i = choose|i: int| 0 <= i < s.filter(pred).len() && s.filter(pred)[i] == e;
        s.lemma_filter_pred(pred, i);
    }
    if s.contains(e) && e.is_active {
        let i = choose|i: int| 0 <= i < s.len() && s[i] == e;
        s.lemma_filter_contains(pred, i);
    }
}

/// Law: writing a record back and then looking its identity up yields the
/// written record, not the original, and the registry numbering stays
/// intact.
pub proof fn lemma_replace_then_find(s: Seq<Entity>, e: Entity)
    requires
        wf_entities(s),
        e.wf(),
        e.id < s.len(),
    ensures
        wf_entities(s.update(e.id as int, e)),
        s.update(e.id as int, e)[e.id as int] == e,
{
}

/// What the active-subset cache becomes when `e` is written back: an
/// active record overwrites its cached copy (or is appended if absent), an
/// inactive one leaves the cache.
pub open spec fn cache_after_replace(cache: Seq<Entity>, e: Entity) -> Seq<Entity> {
    if e.is_active {
        if exists|i: int| 0 <= i < cache.len() && (#[trigger] cache[i]).id == e.id {
            cache.map_values(|a: Entity| if a.id == e.id { e } else { a })
        } else {
            cache.push(e)
        }
    } else {
        cache.filter(|a: Entity| a.id != e.id)
    }
}

/// The single shared mutable store of the simulation.
pub struct World {
    level_offset: i64,
    level_completed: bool,
    difficulty_level: u32,
    entities: Vec<Entity>,
    active_entities: Vec<Entity>,
    collected_scorepoints: i64,
    level: Option<Level>,
    particlesystem_pool: ParticleSystemPool,
}

impl World {
    /// The canonical entity list.
    pub closed spec fn entities_view(self) -> Seq<Entity> {
        self.entities@
    }

    /// The cached active subset.
    pub closed spec fn actives_view(self) -> Seq<Entity> {
        self.active_entities@
    }

    /// The score collected this session.
    pub closed spec fn score(self) -> int {
        self.collected_scorepoints as int
    }

    /// Horizontal scroll position of the play window, in fixed-point steps.
    pub closed spec fn offset(self) -> i64 {
        self.level_offset
    }

    /// Whether the player has reached the level-end marker.
    pub closed spec fn completed(self) -> bool {
        self.level_completed
    }

    /// Difficulty the stat tables scale with.
    pub closed spec fn difficulty(self) -> u32 {
        self.difficulty_level
    }

    /// The level in play, if one is loaded.
    pub closed spec fn level_view(self) -> Option<Level> {
        self.level
    }

    /// The live particle systems.
    pub closed spec fn particles_view(self) -> Seq<ParticleSystem> {
        self.particlesystem_pool.pool_view()
    }

    /// Whether the particle pool is in range.
    pub open spec fn particles_wf(self) -> bool {
        forall|i: int|
            0 <= i < self.particles_view().len() ==> -2 * DT_LIMIT <= (
            #[trigger] self.particles_view()[i]).remaining <= DT_LIMIT && (
            self.particles_view()[i].is_active ==> self.particles_view()[i].remaining >= 0)
    }

    /// Installs (or clears) the level in play.
    pub fn set_level(&mut self, level: Option<Level>)
        ensures
            final(self).level_view() == level,
            final(self).entities_view() == old(self).entities_view(),
            final(self).actives_view() == old(self).actives_view(),
            final(self).score() == old(self).score(),
            final(self).offset() == old(self).offset(),
            final(self).completed() == old(self).completed(),
            final(self).difficulty() == old(self).difficulty(),
            final(self).particles_view() == old(self).particles_view(),
            old(self).wf() ==> final(self).wf(),
    {
        self.level = level;
    }

    /// Removes and hands back the level in play, so a frame phase can
    /// mutate it alongside the registry.
    pub fn take_level(&mut self) -> (r: Option<Level>)
        ensures
            r == old(self).level_view(),
            final(self).level_view() is None,
            final(self).entities_view() == old(self).entities_view(),
            final(self).actives_view() == old(self).actives_view(),
            final(self).score() == old(self).score(),
            final(self).offset() == old(self).offset(),
            final(self).completed() == old(self).completed(),
            final(self).difficulty() == old(self).difficulty(),
            final(self).particles_view() == old(self).particles_view(),
            old(self).wf() ==> final(self).wf(),
    {
        self.level.take()
    }

    /// Whether a level is in play.
    pub fn has_level(&self) -> (r: bool)
        ensures
            r == (self.level_view() is Some),
    {
        self.level.is_some()
    }

    /// The level in play; the caller must know one is loaded.
    pub fn get_active_level(&self) -> (r: &Level)
        requires
            self.level_view() is Some,
        ensures
            *r == self.level_view()->Some_0,
    {
        match &self.level {
            Some(level) => level,
            None => unreached(),
        }
    }

    /// Spawns one particle burst.
    pub fn spawn_particles(
        &mut self,
        position: crate::geom::Vec2i,
        particle_count: usize,
        params: crate::particle_sys::ParticleParams,
    )
        requires
            0 <= params.lifetime <= DT_LIMIT,
        ensures
            final(self).particles_view() == old(self).particles_view().push(
                ParticleSystem {
                    position,
                    particle_count,
                    remaining: params.lifetime,
                    is_active: true,
                },
            ),
            final(self).entities_view() == old(self).entities_view(),
            final(self).actives_view() == old(self).actives_view(),
            final(self).score() == old(self).score(),
            final(self).offset() == old(self).offset(),
            final(self).completed() == old(self).completed(),
            final(self).difficulty() == old(self).difficulty(),
            final(self).level_view() == old(self).level_view(),
            old(self).wf() ==> final(self).wf(),
    {
        self.particlesystem_pool.spawn_system_at_position(position, particle_count, params);
    }

    /// How many particle systems are live.
    pub fn particles_len(&self) -> (n: usize)
        ensures
            n == self.particles_view().len(),
    {
        self.particlesystem_pool.len()
    }

    /// The fixed-update phase: one particle tick.
    pub fn fixed_update(&mut self, dt: i64)
        requires
            old(self).particles_wf(),
            0 <= dt <= DT_LIMIT,
        ensures
            final(self).particles_view() == crate::particle_sys::pool_stepped(
                old(self).particles_view(),
                dt as int,
                0,
            ),
            final(self).particles_wf(),
            final(self).entities_view() == old(self).entities_view(),
            final(self).actives_view() == old(self).actives_view(),
            final(self).score() == old(self).score(),
            final(self).offset() == old(self).offset(),
            final(self).completed() == old(self).completed(),
            final(self).difficulty() == old(self).difficulty(),
            final(self).level_view() == old(self).level_view(),
            old(self).wf() ==> final(self).wf(),
    {
        self.particlesystem_pool.update(dt);
    }

    /// The frame's opening phase: the active subset is recomputed from the
    /// full list, and unless the level's end marker has scrolled into the
    /// window, the window scrolls on by the level speed.
    pub fn update_actives(&mut self, dt: i64)
        requires
            old(self).wf(),
            old(self).level_view() is Some,
            old(self).level_view()->Some_0.wf(),
            0 <= dt <= DT_LIMIT,
            old(self).offset() + LEVEL_SPEED * dt <= COORD_LIMIT,
        ensures
            final(self).wf(),
            final(self).entities_view() == old(self).entities_view(),
            final(self).actives_view() == old(self).entities_view().filter(
                |e: Entity| e.is_active,
            ),
            final(self).score() == old(self).score(),
            final(self).completed() == old(self).completed(),
            final(self).difficulty() == old(self).difficulty(),
            final(self).level_view() == old(self).level_view(),
            final(self).particles_view() == old(self).particles_view(),
            final(self).offset() == if crate::collision::inside_windowborder_spec(
                old(self).level_view()->Some_0.leveldata.end_of_level->Some_0.entity.transform.rect,
                old(self).offset() as int,
                0,
            ) {
                old(self).offset() as int
            } else {
                old(self).offset() + LEVEL_SPEED * dt
            },
    {
        self.refresh_active_subset();
        let reached = match &self.level {
            Some(level) => level.has_reached_level_end(self.level_offset),
            None => true,
        };
        if !reached {
            self.level_offset = self.level_offset + LEVEL_SPEED * dt;
        }
    }

    /// Reads the scroll offset.
    pub fn get_level_offset(&self) -> (r: i64)
        ensures
            r == self.offset(),
    {
        self.level_offset
    }

    /// Moves the scroll offset.
    pub fn set_level_offset(&mut self, value: i64)
        requires
            -COORD_LIMIT <= value <= COORD_LIMIT,
        ensures
            final(self).offset() == value,
            old(self).wf() ==> final(self).wf(),
            final(self).entities_view() == old(self).entities_view(),
            final(self).actives_view() == old(self).actives_view(),
            final(self).score() == old(self).score(),
            final(self).completed() == old(self).completed(),
            final(self).difficulty() == old(self).difficulty(),
            final(self).level_view() == old(self).level_view(),
            final(self).particles_view() == old(self).particles_view(),
    {
        self.level_offset = value;
    }

    /// Reads the level-completed flag.
    pub fn get_level_completed(&self) -> (r: bool)
        ensures
            r == self.completed(),
    {
        self.level_completed
    }

    /// Sets the level-completed flag.
    pub fn set_level_completed(&mut self, value: bool)
        ensures
            final(self).completed() == value,
            old(self).wf() ==> final(self).wf(),
            final(self).entities_view() == old(self).entities_view(),
            final(self).actives_view() == old(self).actives_view(),
            final(self).score() == old(self).score(),
            final(self).offset() == old(self).offset(),
            final(self).difficulty() == old(self).difficulty(),
            final(self).level_view() == old(self).level_view(),
            final(self).particles_view() == old(self).particles_view(),
    {
        self.level_completed = value;
    }

    /// Reads the difficulty.
    pub fn get_difficulty(&self) -> (r: u32)
        ensures
            r == self.difficulty(),
    {
        self.difficulty_level
    }

    /// Sets the difficulty.
    pub fn set_difficulty(&mut self, value: u32)
        ensures
            final(self).difficulty() == value,
            old(self).wf() ==> final(self).wf(),
            final(self).entities_view() == old(self).entities_view(),
            final(self).actives_view() == old(self).actives_view(),
            final(self).score() == old(self).score(),
            final(self).offset() == old(self).offset(),
            final(self).completed() == old(self).completed(),
            final(self).level_view() == old(self).level_view(),
            final(self).particles_view() == old(self).particles_view(),
    {
        self.difficulty_level = value;
    }

    /// Registry and cache invariant, plus the scroll offset in range.
    pub open spec fn wf(self) -> bool {
        &&& wf_entities(self.entities_view())
        &&& wf_actives(self.actives_view(), self.entities_view().len() as int)
        &&& -COORD_LIMIT <= self.offset() <= COORD_LIMIT
        &&& i64::MIN <= self.score() <= i64::MAX
    }

    /// A fresh, empty world.
    pub fn new() -> (w: World)
        ensures
            w.wf(),
            w.entities_view() == Seq::<Entity>::empty(),
            w.actives_view() == Seq::<Entity>::empty(),
            w.score() == 0,
            w.offset() == 0,
            !w.completed(),
            w.difficulty() == 0,
            w.level_view() is None,
            w.particles_view() == Seq::<ParticleSystem>::empty(),
    {
        World {
            level_offset: 0,
            level_completed: false,
            difficulty_level: 0,
            entities: Vec::new(),
            active_entities: Vec::new(),
            collected_scorepoints: 0,
            level: None,
            particlesystem_pool: ParticleSystemPool::new(),
        }
    }

    /// Empties the registry for a full restart: entities, cache and score
    /// all reset.
    pub fn reload(&mut self)
        requires
            old(self).wf(),
        ensures
            final(self).wf(),
            final(self).entities_view() == Seq::<Entity>::empty(),
            final(self).actives_view() == Seq::<Entity>::empty(),
            final(self).score() == 0,
            final(self).offset() == old(self).offset(),
            final(self).completed() == old(self).completed(),
            final(self).difficulty() == old(self).difficulty(),
            final(self).level_view() is None,
            final(self).particles_view() == Seq::<ParticleSystem>::empty(),
    {
        self.entities.clear();
        self.active_entities.clear();
        self.collected_scorepoints = 0;
        self.particlesystem_pool.clear();
        self.level = None;
    }

    /// Empties the registry for the next level, keeping the score.
    pub fn reload_for_next_level(&mut self)
        requires
            old(self).wf(),
        ensures
            final(self).wf(),
            final(self).entities_view() == Seq::<Entity>::empty(),
            final(self).actives_view() == Seq::<Entity>::empty(),
            final(self).score() == old(self).score(),
            final(self).offset() == old(self).offset(),
            final(self).completed() == old(self).completed(),
            final(self).difficulty() == old(self).difficulty(),
            final(self).level_view() is None,
            final(self).particles_view() == Seq::<ParticleSystem>::empty(),
    {
        self.entities.clear();
        self.active_entities.clear();
        self.particlesystem_pool.clear();
        self.level = None;
    }

    /// How many entities the registry holds.
    pub fn entity_count(&self) -> (n: usize)
        ensures
            n == self.entities_view().len(),
    {
        self.entities.len()
    }

    /// Appends a record whose id must already be the registry's size: the
    /// append-only numbering scheme.
    pub fn add_entity(&mut self, new_entity: Entity)
        requires
            old(self).wf(),
            new_entity.wf(),
            new_entity.id == old(self).entities_view().len(),
        ensures
            final(self).wf(),
            final(self).entities_view() == old(self).entities_view().push(new_entity),
            final(self).actives_view() == old(self).actives_view(),
            final(self).score() == old(self).score(),
            final(self).offset() == old(self).offset(),
            final(self).completed() == old(self).completed(),
            final(self).difficulty() == old(self).difficulty(),
            final(self).level_view() == old(self).level_view(),
            final(self).particles_view() == old(self).particles_view(),
    {
        self.entities.push(new_entity);
    }

    /// Writes `entity` over the record with the same id and keeps the
    /// active-subset cache consistent: an active entity is overwritten in
    /// the cache or appended to it, an inactive one leaves it.  An id the
    /// registry does not hold changes nothing.  Safe to call redundantly.
    pub fn set_entity(&mut self, entity: &Entity)
        requires
            old(self).wf(),
            entity.wf(),
        ensures
            final(self).wf(),
            entity.id < old(self).entities_view().len() ==> {
                &&& final(self).entities_view() == old(self).entities_view().update(
                    entity.id as int,
                    *entity,
                )
                &&& final(self).actives_view() == cache_after_replace(
                    old(self).actives_view(),
                    *entity,
                )
            },
            entity.id >= old(self).entities_view().len() ==> {
                &&& final(self).entities_view() == old(self).entities_view()
                &&& final(self).actives_view() == old(self).actives_view()
            },
            final(self).score() == old(self).score(),
            final(self).offset() == old(self).offset(),
            final(self).completed() == old(self).completed(),
            final(self).difficulty() == old(self).difficulty(),
            final(self).level_view() == old(self).level_view(),
            final(self).particles_view() == old(self).particles_view(),
    {
        if self.entities.len() <= entity.id {
            proof {
                assert(final(self).entities_view() =~= old(self).entities_view());
            }
            return ;
        }
        self.entities.set(entity.id, *entity);
        if entity.is_active {
            let mut idx: usize = 0;
            let mut found = false;
            let n = self.active_entities.len();
            while idx < n
                invariant
                    n == self.active_entities@.len(),
                    idx <= n,
                    entity.wf(),
                    entity.id < self.entities@.len(),
                    wf_entities(old(self).entities_view()),
                    self.entities@ == old(self).entities_view().update(
                        entity.id as int,
                        *entity,
                    ),
                    wf_entities(self.entities@),
                    self.score() == old(self).score(),
                    self.offset() == old(self).offset(),
                    self.completed() == old(self).completed(),
                    self.difficulty() == old(self).difficulty(),
                    self.level == old(self).level_view(),
                    self.particlesystem_pool.pool_view() == old(self).particles_view(),
                    -COORD_LIMIT <= self.offset() <= COORD_LIMIT,
                    wf_actives(old(self).actives_view(), old(self).entities_view().len() as int),
                    self.entities@.len() == old(self).entities_view().len(),
                    forall|j: int|
                        0 <= j < idx ==> self.active_entities@[j] == (if old(
                            self,
                        ).actives_view()[j].id == entity.id {
                            *entity
                        } else {
                            old(self).actives_view()[j]
                        }),
                    forall|j: int|
                        idx <= j < n ==> self.active_entities@[j] == old(self).actives_view()[j],
                    found <==> exists|i: int|
                        0 <= i < idx && (#[trigger] old(self).actives_view()[i]).id == entity.id,
                decreases n - idx,
            {
                if self.active_entities[idx].id == entity.id {
                    self.active_entities.set(idx, *entity);
                    found = true;
                }
                idx = idx + 1;
            }
            proof {
                if found {
                    assert(self.active_entities@ =~= old(self).actives_view().map_values(
                        |a: Entity| if a.id == entity.id {
                            *entity
                        } else {
                            a
                        },
                    ));
                } else {
                    assert(self.active_entities@ =~= old(self).actives_view());
                }
            }
            if !found {
                self.active_entities.push(*entity);
            }
        } else {
            let mut kept: Vec<Entity> = Vec::new();
            let mut idx: usize = 0;
            let n = self.active_entities.len();
            while idx < n
                invariant
                    n == self.active_entities@.len(),
                    idx <= n,
                    wf_actives(old(self).actives_view(), old(self).entities_view().len() as int),
                    self.entities@.len() == old(self).entities_view().len(),
                    self.active_entities@ == old(self).actives_view(),
                    entity.id < old(self).entities_view().len(),
                    self.entities@ == old(self).entities_view().update(
                        entity.id as int,
                        *entity,
                    ),
                    wf_entities(self.entities@),
                    self.score() == old(self).score(),
                    self.offset() == old(self).offset(),
                    self.completed() == old(self).completed(),
                    self.difficulty() == old(self).difficulty(),
                    self.level == old(self).level_view(),
                    self.particlesystem_pool.pool_view() == old(self).particles_view(),
                    -COORD_LIMIT <= self.offset() <= COORD_LIMIT,
                    kept@ == old(self).actives_view().take(idx as int).filter(
                        |a: Entity| a.id != entity.id,
                    ),
                    wf_actives(kept@, self.entities@.len() as int),
                decreases n - idx,
            {
                proof {
                    assert(old(self).actives_view().take(idx + 1) =~= old(
                        self,
                    ).actives_view().take(idx as int).push(old(self).actives_view()[idx as int]));
                    lemma_filter_push(
                        old(self).actives_view().take(idx as int),
                        old(self).actives_view()[idx as int],
                        |a: Entity| a.id != entity.id,
                    );
                }
                let a = self.active_entities[idx];
                if a.id != entity.id {
                    kept.push(a);
                }
                idx = idx + 1;
            }
            proof {
                assert(old(self).actives_view().take(n as int) =~= old(self).actives_view());
            }
            self.active_entities = kept;
        }
    }

    /// Looks an entity up by identity; `None` exactly when the registry is
    /// too short to hold that id.
    pub fn get_entity_by_id(&self, id: usize) -> (r: Option<Entity>)
        requires
            self.wf(),
        ensures
            r == if id < self.entities_view().len() {
                Some(self.entities_view()[id as int])
            } else {
                None::<Entity>
            },
    {
        let n = self.entities.len();
        let mut idx: usize = 0;
        while idx < n
            invariant
                n == self.entities@.len(),
                idx <= n,
                wf_entities(self.entities@),
                forall|j: int| 0 <= j < idx ==> (#[trigger] self.entities@[j]).id != id,
            decreases n - idx,
        {
            if self.entities[idx].id == id {
                return Some(self.entities[idx]);
            }
            idx = idx + 1;
        }
        None
    }

    /// Looks the first entity up that carries `tag`; several entities may
    /// share one, and the earliest-registered wins.
    pub fn get_entity_by_tag(&self, tag: Tag) -> (r: Option<Entity>)
        ensures
            r == find_by_tag_spec(self.entities_view(), tag),
    {
        let n = self.entities.len();
        let mut idx: usize = 0;
        while idx < n
            invariant
                n == self.entities@.len(),
                idx <= n,
                find_by_tag_spec(self.entities@, tag) == find_by_tag_from(
                    self.entities@,
                    tag,
                    idx as int,
                ),
            decreases n - idx,
        {
            if self.entities[idx].tag == tag {
                return Some(self.entities[idx]);
            }
            idx = idx + 1;
        }
        None
    }

    /// Recomputes the active subset from the full list: afterwards the
    /// cache holds exactly the active entities, in registry order.
    pub fn refresh_active_subset(&mut self)
        requires
            old(self).wf(),
        ensures
            final(self).wf(),
            final(self).entities_view() == old(self).entities_view(),
            final(self).actives_view() == old(self).entities_view().filter(
                |e: Entity| e.is_active,
            ),
            final(self).score() == old(self).score(),
            final(self).offset() == old(self).offset(),
            final(self).completed() == old(self).completed(),
            final(self).difficulty() == old(self).difficulty(),
            final(self).level_view() == old(self).level_view(),
            final(self).particles_view() == old(self).particles_view(),
    {
        let mut fresh: Vec<Entity> = Vec::new();
        let mut idx: usize = 0;
        let n = self.entities.len();
        while idx < n
            invariant
                n == self.entities@.len(),
                idx <= n,
                wf_entities(self.entities@),
                fresh@ == self.entities@.take(idx as int).filter(|e: Entity| e.is_active),
                wf_actives(fresh@, n as int),
                self.entities@ == old(self).entities_view(),
                self.actives_view() == old(self).actives_view(),
                self.score() == old(self).score(),
                self.offset() == old(self).offset(),
                self.completed() == old(self).completed(),
                self.difficulty() == old(self).difficulty(),
                self.level == old(self).level_view(),
                self.particlesystem_pool.pool_view() == old(self).particles_view(),
                -COORD_LIMIT <= self.offset() <= COORD_LIMIT,
            decreases n - idx,
        {
            proof {
                assert(self.entities@.take(idx + 1) =~= self.entities@.take(idx as int).push(
                    self.entities@[idx as int],
                ));
                lemma_filter_push(
                    self.entities@.take(idx as int),
                    self.entities@[idx as int],
                    |e: Entity| e.is_active,
                );
            }
            let e = self.entities[idx];
            if e.is_active {
                fresh.push(e);
            }
            idx = idx + 1;
        }
        proof {
            assert(self.entities@.take(n as int) =~= self.entities@);
        }
        self.active_entities = fresh;
    }

    /// The full registry, read-only, as the player's collision pass scans
    /// it.
    pub fn get_entities(&self) -> (r: &Vec<Entity>)
        ensures
            r@ == self.entities_view(),
    {
        &self.entities
    }

    /// The cached active subset, as the collision passes read it.
    pub fn get_actives(&self) -> (r: &Vec<Entity>)
        ensures
            r@ == self.actives_view(),
    {
        &self.active_entities
    }

    /// The score collected so far.
    pub fn get_collected_scorepoints(&self) -> (r: i64)
        ensures
            r == self.score(),
    {
        self.collected_scorepoints
    }

    /// Adds `value` points, stopping at the integer limits.
    pub fn add_scorepoints(&mut self, value: i64)
        ensures
            final(self).score() == if old(self).score() + value > i64::MAX {
                i64::MAX as int
            } else if old(self).score() + value < i64::MIN {
                i64::MIN as int
            } else {
                old(self).score() + value
            },
            final(self).entities_view() == old(self).entities_view(),
            final(self).actives_view() == old(self).actives_view(),
            final(self).offset() == old(self).offset(),
            final(self).completed() == old(self).completed(),
            final(self).difficulty() == old(self).difficulty(),
            final(self).level_view() == old(self).level_view(),
            final(self).particles_view() == old(self).particles_view(),
            old(self).wf() ==> final(self).wf(),
    {
        if value >= 0 {
            if self.collected_scorepoints > i64::MAX - value {
                self.collected_scorepoints = i64::MAX;
            } else {
                self.collected_scorepoints = self.collected_scorepoints + value;
            }
        } else {
            if self.collected_scorepoints < i64::MIN - value {
                self.collected_scorepoints = i64::MIN;
            } else {
                self.collected_scorepoints = self.collected_scorepoints + value;
            }
        }
    }

    /// Zeroes the score.
    pub fn reset_scorepoints(&mut self)
        ensures
            final(self).score() == 0,
            final(self).entities_view() == old(self).entities_view(),
            final(self).actives_view() == old(self).actives_view(),
            final(self).offset() == old(self).offset(),
            final(self).completed() == old(self).completed(),
            final(self).difficulty() == old(self).difficulty(),
            final(self).level_view() == old(self).level_view(),
            final(self).particles_view() == old(self).particles_view(),
            old(self).wf() ==> final(self).wf(),
    {
        self.collected_scorepoints = 0;
    }
}

} // verus!
