//! The particle-system pool: visual effects modelled as timed systems
//! that the fixed-update phase ticks down and discards.
//!
//! Colour and interpolation belong to the renderer; the simulation core
//! tracks only placement, particle counts and remaining lifetime.
use vstd::prelude::*;
use crate::geom::Vec2i;
use crate::DT_LIMIT;

verus! {

/// The configuration a particle system is spawned with.
#[derive(Clone, Copy, PartialEq, Eq, Structural, Debug)]
pub struct ParticleParams {
    /// How long the system lives, in milliseconds.
    pub lifetime: i64,
    /// How many particles one spawn burst emits.
    pub spawn_count: usize,
}

impl ParticleParams {
    /// One particle, one second of life.
    pub fn new() -> (p: ParticleParams)
        ensures
            p == (ParticleParams { lifetime: 1000, spawn_count: 1 }),
    {
        ParticleParams { lifetime: 1000, spawn_count: 1 }
    }
}

/// One live particle system: where it plays, how many particles it holds,
/// and how long it still runs.
#[derive(Clone, Copy, PartialEq, Eq, Structural, Debug)]
pub struct ParticleSystem {
    pub position: Vec2i,
    pub particle_count: usize,
    pub remaining: i64,
    pub is_active: bool,
}

impl ParticleSystem {
    /// Builds a system at the origin with the given burst size and
    /// lifetime.
    pub fn new(pool_size: usize, params: ParticleParams) -> (s: ParticleSystem)
        ensures
            s == (ParticleSystem {
                position: Vec2i { x: 0, y: 0 },
                particle_count: pool_size,
                remaining: params.lifetime,
                is_active: true,
            }),
    {
        ParticleSystem {
            position: Vec2i { x: 0, y: 0 },
            particle_count: pool_size,
            remaining: params.lifetime,
            is_active: true,
        }
    }
}

/// One fixed-update tick of a single system.
pub open spec fn system_stepped(s: ParticleSystem, dt: int) -> ParticleSystem {
    ParticleSystem {
        remaining: (s.remaining - dt) as i64,
        is_active: s.remaining - dt > 0,
        ..s
    }
}

/// The pool after one tick: the systems that were active, each ticked
/// down, in order.
pub open spec fn pool_stepped(pool: Seq<ParticleSystem>, dt: int, k: int) -> Seq<ParticleSystem>
    decreases pool.len() - k,
{
    if k < 0 || k >= pool.len() {
        Seq::empty()
    } else {
        let rest = pool_stepped(pool, dt, k + 1);
        if pool[k].is_active {
            seq![system_stepped(pool[k], dt)] + rest
        } else {
            rest
        }
    }
}

/// The growable set of live particle systems.
pub struct ParticleSystemPool {
    pool: Vec<ParticleSystem>,
}

impl ParticleSystemPool {
    /// The systems, in spawn order.
    pub closed spec fn pool_view(self) -> Seq<ParticleSystem> {
        self.pool@
    }

    /// Every remaining lifetime is in range, and a live system never has
    /// negative life left.
    pub open spec fn wf(self) -> bool {
        forall|i: int|
            0 <= i < self.pool_view().len() ==> -2 * DT_LIMIT <= (
            #[trigger] self.pool_view()[i]).remaining <= DT_LIMIT && (
            self.pool_view()[i].is_active ==> self.pool_view()[i].remaining >= 0)
    }

    /// An empty pool.
    pub fn new() -> (p: ParticleSystemPool)
        ensures
            p.pool_view() == Seq::<ParticleSystem>::empty(),
            p.wf(),
    {
        ParticleSystemPool { pool: Vec::new() }
    }

    /// Discards every system.
    pub fn clear(&mut self)
        ensures
            final(self).pool_view() == Seq::<ParticleSystem>::empty(),
            final(self).wf(),
    {
        self.pool.clear();
    }

    /// How many systems are live.
    pub fn len(&self) -> (n: usize)
        ensures
            n == self.pool_view().len(),
    {
        self.pool.len()
    }

    /// Spawns one burst of `particle_count` particles at `position`.
    pub fn spawn_system_at_position(
        &mut self,
        position: Vec2i,
        particle_count: usize,
        params: ParticleParams,
    )
        requires
            0 <= params.lifetime <= DT_LIMIT,
        ensures
            final(self).pool_view() == old(self).pool_view().push(
                ParticleSystem {
                    position,
                    particle_count,
                    remaining: params.lifetime,
                    is_active: true,
                },
            ),
            old(self).wf() ==> final(self).wf(),
    {
        let mut system = ParticleSystem::new(particle_count, params);
        system.position = position;
        self.pool.push(system);
        proof {
            if old(self).wf() {
                assert forall|i: int| 0 <= i < self.pool@.len() implies -2 * DT_LIMIT <= (
                #[trigger] self.pool@[i]).remaining <= DT_LIMIT && (self.pool@[i].is_active
                    ==> self.pool@[i].remaining >= 0) by {
                    if i < old(self).pool_view().len() {
                        assert(self.pool@[i] == old(self).pool_view()[i]);
                    } else {
                        assert(self.pool@[i] == system);
                    }
                }
            }
        }
    }

    /// One fixed-update tick: inactive systems are discarded, the rest run
    /// down by the frame time and go inactive as their lifetime ends.
    pub fn update(&mut self, dt: i64)
        requires
            old(self).wf(),
            0 <= dt <= DT_LIMIT,
        ensures
            final(self).pool_view() == pool_stepped(old(self).pool_view(), dt as int, 0),
            final(self).wf(),
    {
        let n = self.pool.len();
        let mut fresh: Vec<ParticleSystem> = Vec::new();
        let mut k: usize = 0;
        while k < n
            invariant
                n == self.pool@.len(),
                k <= n,
                self.pool@ == old(self).pool_view(),
                0 <= dt <= DT_LIMIT,
                old(self).wf(),
                fresh@ + pool_stepped(old(self).pool_view(), dt as int, k as int) == pool_stepped(
                    old(self).pool_view(),
                    dt as int,
                    0,
                ),
                forall|i: int|
                    0 <= i < fresh@.len() ==> -2 * DT_LIMIT <= (#[trigger] fresh@[i]).remaining
                        <= DT_LIMIT && ((#[trigger] fresh@[i]).is_active ==> fresh@[i].remaining
                        >= 0),
            decreases n - k,
        {
            let s = self.pool[k];
            if s.is_active {
                proof {
                    assert(0 <= old(self).pool_view()[k as int].remaining <= DT_LIMIT);
                }
                let stepped = ParticleSystem {
                    position: s.position,
                    particle_count: s.particle_count,
                    remaining: s.remaining - dt,
                    is_active: s.remaining - dt > 0,
                };
                proof {
                    assert(stepped == system_stepped(old(self).pool_view()[k as int], dt as int));
                    assert(fresh@.push(stepped) + pool_stepped(
                        old(self).pool_view(),
                        dt as int,
                        k + 1,
                    ) =~= fresh@ + (seq![stepped] + pool_stepped(
                        old(self).pool_view(),
                        dt as int,
                        k + 1,
                    )));
                }
                fresh.push(stepped);
            }
            k = k + 1;
        }
        proof {
            assert(fresh@ + Seq::<ParticleSystem>::empty() =~= fresh@);
        }
        self.pool = fresh;
    }
}

} // verus!
