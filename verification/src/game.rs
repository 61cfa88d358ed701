//! The per-frame pipeline and the session state machine.
//!
//! One rendered frame runs: active-subset refresh and scroll, missile
//! flight, enemy steering and culling, return fire, player movement and
//! firing, and the level's own passes; the collision-resolution phase and
//! the particle phase run on their own fixed wall-clock intervals,
//! throttled by countdown timers that are independent of the frame rate.
use vstd::prelude::*;
use crate::enemypool::EnemyPool;
use crate::gamestate::GameState;
use crate::geom::Rect;
use crate::level::Level;
use crate::levelloader::{level_data_in_range, LevelLoader};
use crate::missle::MisslePool;
use crate::player::{Player, PlayerInput};
use crate::world::World;
use crate::{
    COORD_LIMIT, DT_LIMIT, FIXED_UPDATE_TICK, LATE_UPDATE_TICK, LEVEL_SPEED, SELECTED_LEVEL,
    STAT_LIMIT,
};

verus! {

/// How many missile slots a session preallocates.
pub const MISSLE_POOL_SIZE: usize = 512;

/// How many enemy slots a session preallocates.
pub const ENEMY_POOL_SIZE: usize = 128;

/// The longest frame time one pipeline tick admits, in milliseconds.
pub const FRAME_DT_LIMIT: i64 = 1000;

/// One game session: the world, the pools, the player, the decoded levels,
/// the scores, and the phase-throttling countdowns.
pub struct Game {
    pub late_tick: i64,
    pub fixed_tick: i64,
    pub local_score: i64,
    pub last_score: i64,
    pub high_score: i64,
    pub gamestate: GameState,
    pub world: World,
    pub level_loader: LevelLoader,
    pub available_levels: usize,
    pub selected_level: usize,
    pub misslepool: MisslePool,
    pub enemypool: EnemyPool,
    pub player: Player,
}

impl Game {
    /// Everything in range: the registry, both pools bound to it, the
    /// player, the particle systems, the loaded level, the decoded level
    /// layouts, and the two phase countdowns.
    pub open spec fn wf(self) -> bool {
        &&& self.world.wf()
        &&& self.world.particles_wf()
        &&& self.misslepool.wf(self.world.entities_view().len() as int)
        &&& self.enemypool.wf(self.world.entities_view().len() as int)
        &&& self.player.wf()
        &&& self.player.entity.id < self.world.entities_view().len()
        &&& match self.world.level_view() {
            Some(l) => l.wf(),
            None => true,
        }
        &&& self.available_levels == self.level_loader.levels@.len()
        &&& self.selected_level < self.available_levels
        &&& forall|i: int|
            0 <= i < self.level_loader.levels@.len() ==> level_data_in_range(
                #[trigger] self.level_loader.levels@[i],
            )
        &&& -DT_LIMIT <= self.late_tick <= LATE_UPDATE_TICK
        &&& -DT_LIMIT <= self.fixed_tick <= FIXED_UPDATE_TICK
    }

    /// Where the scroll stands after one frame's opening phase: held if
    /// the level's end marker has entered the window, advanced by the
    /// level speed otherwise.
    pub open spec fn frame_offset(self, dt: int) -> int
        recommends
            self.world.level_view() is Some,
    {
        if crate::collision::inside_windowborder_spec(
            self.world.level_view()->Some_0.leveldata.end_of_level->Some_0.entity.transform.rect,
            self.world.offset() as int,
            0,
        ) {
            self.world.offset() as int
        } else {
            self.world.offset() + LEVEL_SPEED * dt
        }
    }

    /// The frame-local conditions one running tick needs: a level in play,
    /// scroll headroom, every active pool slot with motion headroom, and
    /// the player near the centre of the coordinate range.
    pub open spec fn can_frame(self, dt: int) -> bool {
        &&& 0 <= dt <= FRAME_DT_LIMIT
        &&& self.world.level_view() is Some
        &&& self.world.offset() + LEVEL_SPEED * dt <= COORD_LIMIT
        &&& forall|i: int|
            0 <= i < self.misslepool.pool_view().len() && (
            #[trigger] self.misslepool.pool_view()[i]).entity.is_active
                ==> self.misslepool.pool_view()[i].can_step(dt)
        &&& forall|i: int|
            0 <= i < self.enemypool.pool_view().len() && (
            #[trigger] self.enemypool.pool_view()[i]).entity.is_active
                ==> self.enemypool.pool_view()[i].can_step(dt)
        &&& -COORD_LIMIT / 2 <= self.player.entity.transform.position.x <= COORD_LIMIT / 2
        &&& -COORD_LIMIT / 2 <= self.player.entity.transform.position.y <= COORD_LIMIT / 2
        &&& (self.player.entity.entity_params.speed * 3 + LEVEL_SPEED) * dt <= COORD_LIMIT / 4
        &&& self.world.entities_view().len() + 2_000_000 < usize::MAX
    }

    /// Executable test for `can_frame`, so an embedding program can
    /// establish a frame's preconditions before calling `run_frame`.
    pub fn can_frame_check(&self, dt: i64) -> (r: bool)
        requires
            self.wf(),
        ensures
            r == self.can_frame(dt as int),
    {
        if !(0 <= dt && dt <= FRAME_DT_LIMIT) {
            return false;
        }
        if !self.world.has_level() {
            return false;
        }
        let off = self.world.get_level_offset();
        if off + LEVEL_SPEED * dt > COORD_LIMIT {
            return false;
        }
        let n = self.misslepool.len();
        let mut i: usize = 0;
        while i < n
            invariant
                self.wf(),
                0 <= dt <= FRAME_DT_LIMIT,
                n == self.misslepool.pool_view().len(),
                i <= n,
                forall|j: int|
                    0 <= j < i && (#[trigger] self.misslepool.pool_view()[j]).entity.is_active
                        ==> self.misslepool.pool_view()[j].can_step(dt as int),
            decreases n - i,
        {
            let m = self.misslepool.get_slot(i);
            if m.entity.is_active {
                proof {
                    let ghost fs = m.entity.entity_params.firespeed as int;
                    assert(0 <= fs * dt <= STAT_LIMIT * (FRAME_DT_LIMIT as int))
                        by (nonlinear_arith)
                        requires
                            0 <= fs <= STAT_LIMIT,
                            0 <= dt <= FRAME_DT_LIMIT,
                    ;
                }
                let step = m.entity.entity_params.firespeed * dt;
                let p = m.entity.transform.position;
                if !(p.x - step >= -COORD_LIMIT && p.x + step <= COORD_LIMIT && p.y - step
                    >= -COORD_LIMIT && p.y + step <= COORD_LIMIT) {
                    return false;
                }
            }
            i = i + 1;
        }
        let n = self.enemypool.len();
        let mut i: usize = 0;
        while i < n
            invariant
                self.wf(),
                0 <= dt <= FRAME_DT_LIMIT,
                n == self.enemypool.pool_view().len(),
                i <= n,
                forall|j: int|
                    0 <= j < i && (#[trigger] self.enemypool.pool_view()[j]).entity.is_active
                        ==> self.enemypool.pool_view()[j].can_step(dt as int),
            decreases n - i,
        {
            let e = self.enemypool.get_slot(i);
            if e.entity.is_active {
                proof {
                    let ghost sp = e.entity.entity_params.speed as int;
                    assert(0 <= sp * dt <= STAT_LIMIT * (FRAME_DT_LIMIT as int))
                        by (nonlinear_arith)
                        requires
                            0 <= sp <= STAT_LIMIT,
                            0 <= dt <= FRAME_DT_LIMIT,
                    ;
                }
                let step = e.entity.entity_params.speed * dt;
                let p = e.entity.transform.position;
                if !(p.x - step >= -COORD_LIMIT && p.x + step <= COORD_LIMIT && p.y - step
                    >= -COORD_LIMIT && p.y + step <= COORD_LIMIT) {
                    return false;
                }
            }
            i = i + 1;
        }
        let pp = self.player.entity.transform.position;
        if !(pp.x >= -COORD_LIMIT / 2 && pp.x <= COORD_LIMIT / 2 && pp.y >= -COORD_LIMIT / 2
            && pp.y <= COORD_LIMIT / 2) {
            return false;
        }
        proof {
            let ghost sp = self.player.entity.entity_params.speed as int;
            assert(0 <= (sp * 3 + LEVEL_SPEED) * dt <= (3 * STAT_LIMIT + LEVEL_SPEED) * (
            FRAME_DT_LIMIT as int)) by (nonlinear_arith)
                requires
                    0 <= sp <= STAT_LIMIT,
                    0 <= dt <= FRAME_DT_LIMIT,
                    LEVEL_SPEED == 300,
            ;
        }
        if (self.player.entity.entity_params.speed * 3 + LEVEL_SPEED) * dt > COORD_LIMIT / 4 {
            return false;
        }
        if self.world.entity_count() >= usize::MAX - 2_000_000 {
            return false;
        }
        true
    }

    /// Builds a session around the decoded levels: a fresh world, the two
    /// pools preallocated, the player registered, the menu showing.  The
    /// first level is not yet in play; `load_level` brings it in.
    pub fn init(level_loader: LevelLoader) -> (g: Game)
        requires
            level_loader.levels@.len() > 0,
            forall|i: int|
                0 <= i < level_loader.levels@.len() ==> level_data_in_range(
                    #[trigger] level_loader.levels@[i],
                ),
        ensures
            g.wf(),
            g.gamestate == GameState::MainMenu,
            g.local_score == 0,
            g.last_score == 0,
            g.high_score == 0,
            g.late_tick == 0,
            g.fixed_tick == 0,
            g.selected_level == SELECTED_LEVEL,
            g.world.level_view() is None,
            g.misslepool.pool_view().len() == MISSLE_POOL_SIZE,
            g.enemypool.pool_view().len() == ENEMY_POOL_SIZE,
    {
        let mut world = World::new();
        let mut misslepool = MisslePool::new();
        misslepool.create_pool(MISSLE_POOL_SIZE, &mut world);
        let mut enemypool = EnemyPool::new();
        enemypool.create_pool(ENEMY_POOL_SIZE, &mut world);
        let mut player = Player::new(&mut world);
        player.init(&mut world);
        let available_levels = level_loader.levels.len();
        Game {
            late_tick: 0,
            fixed_tick: 0,
            local_score: 0,
            last_score: 0,
            high_score: 0,
            gamestate: GameState::MainMenu,
            world,
            level_loader,
            available_levels,
            selected_level: SELECTED_LEVEL,
            misslepool,
            enemypool,
            player,
        }
    }

    /// Brings the selected level into play.
    pub fn load_level(&mut self)
        requires
            old(self).wf(),
            old(self).world.entities_view().len() + 2_000_000 < usize::MAX,
        ensures
            final(self).wf(),
            final(self).world.level_view() is Some,
            final(self).world.score() == old(self).world.score(),
            final(self).world.offset() == old(self).world.offset(),
            final(self).gamestate == old(self).gamestate,
            final(self).misslepool == old(self).misslepool,
            final(self).enemypool == old(self).enemypool,
            final(self).player == old(self).player,
            final(self).local_score == old(self).local_score,
            final(self).last_score == old(self).last_score,
            final(self).high_score == old(self).high_score,
            final(self).selected_level == old(self).selected_level,
            final(self).available_levels == old(self).available_levels,
            final(self).late_tick == old(self).late_tick,
            final(self).fixed_tick == old(self).fixed_tick,
            old(self).world.entities_view().len() <= final(self).world.entities_view().len(),
            final(self).world.completed() == old(self).world.completed(),
            final(self).world.difficulty() == old(self).world.difficulty(),
    {
        let data = self.level_loader.levels[self.selected_level].duplicate();
        let mut level = Level::new(&mut self.world, data);
        level.init(&mut self.world);
        self.world.set_level(Some(level));
    }

    /// Clears the end-of-level state: the completed flag comes down and
    /// the window scrolls back to the start.
    pub fn end_level(&mut self)
        requires
            old(self).wf(),
        ensures
            final(self).wf(),
            !final(self).world.completed(),
            final(self).world.offset() == 0,
            final(self).world.score() == old(self).world.score(),
            final(self).gamestate == old(self).gamestate,
            final(self).local_score == old(self).local_score,
            final(self).last_score == old(self).last_score,
            final(self).high_score == old(self).high_score,
            final(self).world.level_view() == old(self).world.level_view(),
            final(self).selected_level == old(self).selected_level,
            final(self).misslepool == old(self).misslepool,
            final(self).enemypool == old(self).enemypool,
            final(self).player == old(self).player,
            final(self).late_tick == old(self).late_tick,
            final(self).fixed_tick == old(self).fixed_tick,
    {
        self.world.set_level_completed(false);
        self.world.set_level_offset(0);
    }

    /// Reads the world's score counter into the session's local score.
    pub fn update_score(&mut self)
        ensures
            final(self).local_score == old(self).world.score(),
            final(self).world == old(self).world,
            final(self).gamestate == old(self).gamestate,
            final(self).last_score == old(self).last_score,
            final(self).high_score == old(self).high_score,
            final(self).late_tick == old(self).late_tick,
            final(self).fixed_tick == old(self).fixed_tick,
            final(self).misslepool == old(self).misslepool,
            final(self).enemypool == old(self).enemypool,
            final(self).player == old(self).player,
            final(self).selected_level == old(self).selected_level,
            final(self).available_levels == old(self).available_levels,
            old(self).wf() ==> final(self).wf(),
    {
        self.local_score = self.world.get_collected_scorepoints();
    }

    /// Starts the session over: the registry is emptied and rebuilt (both
    /// pools, the player, the selected level back to the first), the score
    /// is zeroed and play begins at once.
    pub fn restart(&mut self)
        requires
            old(self).wf(),
        ensures
            final(self).wf(),
            final(self).world.score() == 0,
            final(self).local_score == 0,
            final(self).gamestate == GameState::GameRunning,
            final(self).selected_level == 0,
            final(self).world.level_view() is Some,
            final(self).high_score == old(self).high_score,
            final(self).last_score == old(self).last_score,
    {
        self.world.reload();
        self.selected_level = 0;
        let mut misslepool = MisslePool::new();
        misslepool.create_pool(MISSLE_POOL_SIZE, &mut self.world);
        self.misslepool = misslepool;
        let mut enemypool = EnemyPool::new();
        enemypool.create_pool(ENEMY_POOL_SIZE, &mut self.world);
        self.enemypool = enemypool;
        let mut player = Player::new(&mut self.world);
        player.init(&mut self.world);
        self.player = player;
        self.world.reset_scorepoints();
        self.local_score = 0;
        self.gamestate = GameState::GameRunning;
        self.load_level();
    }

    /// Moves on to the next level (wrapping back to the first after the
    /// last): the registry is emptied and rebuilt, the score carries over,
    /// and play begins at once.
    pub fn next_level(&mut self)
        requires
            old(self).wf(),
        ensures
            final(self).wf(),
            final(self).world.score() == old(self).world.score(),
            final(self).gamestate == GameState::GameRunning,
            final(self).world.level_view() is Some,
            final(self).local_score == old(self).local_score,
            final(self).high_score == old(self).high_score,
            final(self).last_score == old(self).last_score,
            final(self).selected_level == if old(self).selected_level + 1 < old(self).available_levels {
                old(self).selected_level + 1
            } else {
                0int
            },
    {
        self.world.reload_for_next_level();
        if self.selected_level + 1 < self.available_levels {
            self.selected_level = self.selected_level + 1;
        } else {
            self.selected_level = 0;
        }
        let mut misslepool = MisslePool::new();
        misslepool.create_pool(MISSLE_POOL_SIZE, &mut self.world);
        self.misslepool = misslepool;
        let mut enemypool = EnemyPool::new();
        enemypool.create_pool(ENEMY_POOL_SIZE, &mut self.world);
        self.enemypool = enemypool;
        let mut player = Player::new(&mut self.world);
        player.init(&mut self.world);
        self.player = player;
        self.gamestate = GameState::GameRunning;
        self.load_level();
    }

    /// The primary update phase of one frame, in the fixed composition
    /// order: active-subset refresh and scroll, missile flight, enemy
    /// steering and culling, return fire, player movement (vetoed by the
    /// frame's culled wall list), player fire, then the level's
    /// destructible and spawning passes.  The score never decreases here.
    #[verifier::rlimit(100)]
    #[verifier::spinoff_prover]
    pub fn update(&mut self, input: &PlayerInput, dt: i64)
        requires
            old(self).wf(),
            old(self).can_frame(dt as int),
            input.pointer.in_range(),
        ensures
            final(self).wf(),
            old(self).world.score() <= final(self).world.score(),
            final(self).world.level_view() is Some,
            final(self).gamestate == old(self).gamestate,
            final(self).late_tick == old(self).late_tick,
            final(self).fixed_tick == old(self).fixed_tick,
            final(self).local_score == old(self).local_score,
            final(self).high_score == old(self).high_score,
            final(self).last_score == old(self).last_score,
            final(self).world.offset() == old(self).frame_offset(dt as int),
            final(self).world.particles_view() == old(self).world.particles_view(),
            !old(self).player.reached_end ==> final(self).player.entity.transform == crate::player::after_moves(
                old(self).player.entity.transform,
                *input,
                old(self).frame_offset(dt as int),
                crate::level::culled_walls_spec(
                    old(self).world.level_view()->Some_0,
                    old(self).frame_offset(dt as int),
                ),
                old(self).player.entity.entity_params.speed as int,
                dt as int,
            ),
            forall|i: int|
                0 <= i < old(self).misslepool.pool_view().len() && (
                #[trigger] old(self).misslepool.pool_view()[i]).entity.is_active && old(self).misslepool.pool_view()[i].step_spec(
                    dt as int,
                    old(self).frame_offset(dt as int),
                ).entity.is_active ==> final(self).misslepool.pool_view()[i] == old(self).misslepool.pool_view()[i].step_spec(dt as int, old(self).frame_offset(dt as int)),
            (forall|i: int|
                0 <= i < old(self).enemypool.pool_view().len() && (
                #[trigger] old(self).enemypool.pool_view()[i]).entity.is_active
                    && crate::enemypool::enemy_in_window(
                    old(self).enemypool.pool_view()[i],
                    old(self).frame_offset(dt as int),
                ) ==> old(self).enemypool.pool_view()[i].entity.entity_params.health > 0) ==> final(self).world.score() == old(self).world.score(),
    {
        self.world.update_actives(dt);
        let ghost o2 = self.world.offset() as int;
        self.misslepool.update(&mut self.world, dt);
        let ghost mp1 = self.misslepool;
        self.enemypool.update(&mut self.world, dt);
        let ghost ep1 = self.enemypool;
        self.enemypool.enemy_shoot(&mut self.misslepool, &mut self.world, dt);
        proof {
            assert forall|i: int|
                0 <= i < old(self).misslepool.pool_view().len() && (
                #[trigger] old(self).misslepool.pool_view()[i]).entity.is_active && old(self).misslepool.pool_view()[i].step_spec(dt as int, o2).entity.is_active implies self.misslepool.pool_view()[i]
                == old(self).misslepool.pool_view()[i].step_spec(dt as int, o2) by {
                assert(mp1.pool_view()[i] == old(self).misslepool.pool_view()[i].step_spec(
                    dt as int,
                    o2,
                ));
            }
        }
        let ghost mp2 = self.misslepool;
        let ghost ep2 = self.enemypool;
        let offset = self.world.get_level_offset();
        let walls: Vec<Rect> = self.world.get_active_level().get_blocking_walls(offset);
        proof {
            assert(walls@ == crate::level::culled_walls_spec(
                old(self).world.level_view()->Some_0,
                o2,
            ));
        }
        self.player.update(&mut self.world, input, &walls, dt);
        proof {
            if !old(self).player.reached_end {
                assert(self.player.entity.transform == crate::player::after_moves(
                    old(self).player.entity.transform,
                    *input,
                    o2,
                    crate::level::culled_walls_spec(old(self).world.level_view()->Some_0, o2),
                    old(self).player.entity.entity_params.speed as int,
                    dt as int,
                ));
            }
        }
        let within = self.player.weapon.entity.transform.position.x >= -COORD_LIMIT + 100_000
            && self.player.weapon.entity.transform.position.x <= COORD_LIMIT - 100_000
            && self.player.weapon.entity.transform.position.y >= -COORD_LIMIT + 100_000
            && self.player.weapon.entity.transform.position.y <= COORD_LIMIT - 100_000;
        if within {
            let _ = self.player.shoot(&mut self.misslepool, &mut self.world, input, dt);
        }
        proof {
            assert forall|i: int|
                0 <= i < old(self).misslepool.pool_view().len() && (
                #[trigger] old(self).misslepool.pool_view()[i]).entity.is_active && old(self).misslepool.pool_view()[i].step_spec(dt as int, o2).entity.is_active implies self.misslepool.pool_view()[i]
                == old(self).misslepool.pool_view()[i].step_spec(dt as int, o2) by {
                assert(mp2.pool_view()[i] == old(self).misslepool.pool_view()[i].step_spec(
                    dt as int,
                    o2,
                ));
                assert(mp2.pool_view().len() == old(self).misslepool.pool_view().len());
                assert(mp2.pool_view()[i].entity.is_active);
                assert(self.misslepool.pool_view()[i] == mp2.pool_view()[i]);
            }
        }
        let ghost mp3 = self.misslepool;
        let level_option = self.world.take_level();
        match level_option {
            Some(level) => {
                let mut lvl = level;
                lvl.update(&self.world, dt);
                lvl.spawer_update(&mut self.enemypool, &mut self.world, dt);
                self.world.set_level(Some(lvl));
            },
            None => {},
        }
    }

    /// The particle phase: one fixed-update tick.
    pub fn fixed_update(&mut self, dt: i64)
        requires
            old(self).wf(),
            0 <= dt <= DT_LIMIT,
        ensures
            final(self).wf(),
            final(self).world.score() == old(self).world.score(),
            final(self).gamestate == old(self).gamestate,
            final(self).local_score == old(self).local_score,
            final(self).last_score == old(self).last_score,
            final(self).high_score == old(self).high_score,
            final(self).late_tick == old(self).late_tick,
            final(self).fixed_tick == old(self).fixed_tick,
            final(self).world.level_view() == old(self).world.level_view(),
            final(self).world.particles_view() == crate::particle_sys::pool_stepped(
                old(self).world.particles_view(),
                dt as int,
                0,
            ),
            final(self).world.entities_view() == old(self).world.entities_view(),
            final(self).world.offset() == old(self).world.offset(),
            final(self).world.completed() == old(self).world.completed(),
            final(self).misslepool == old(self).misslepool,
            final(self).enemypool == old(self).enemypool,
            final(self).player == old(self).player,
    {
        self.world.fixed_update(dt);
    }

    /// The collision-resolution phase, in the fixed composition order: the
    /// level's cleanup and turret fire, the player's collision scan, the
    /// missiles' and the enemies'.  The score never moves here; awards
    /// belong to the primary phase.
    #[verifier::rlimit(100)]
    #[verifier::spinoff_prover]
    pub fn late_update(&mut self, dt: i64)
        requires
            old(self).wf(),
            0 <= dt <= DT_LIMIT,
        ensures
            final(self).wf(),
            final(self).world.score() == old(self).world.score(),
            final(self).gamestate == old(self).gamestate,
            final(self).local_score == old(self).local_score,
            final(self).last_score == old(self).last_score,
            final(self).high_score == old(self).high_score,
            final(self).late_tick == old(self).late_tick,
            final(self).fixed_tick == old(self).fixed_tick,
            final(self).world.offset() == old(self).world.offset(),
            final(self).world.completed() == old(self).world.completed(),
            final(self).world.particles_view() == old(self).world.particles_view(),
            final(self).world.entities_view().len() == old(self).world.entities_view().len(),
            final(self).misslepool.pool_view().len() == old(self).misslepool.pool_view().len(),
            final(self).player.entity.transform == old(self).player.entity.transform,
            final(self).player.weapon == old(self).player.weapon,
            old(self).player.reached_end ==> final(self).player.reached_end,
            forall|i: int|
                0 <= i < old(self).misslepool.pool_view().len() && (
                #[trigger] old(self).misslepool.pool_view()[i]).entity.is_active ==> (final(self).misslepool.pool_view()[i] == old(self).misslepool.pool_view()[i] || final(self).misslepool.pool_view()[i] == old(self).misslepool.pool_view()[i].reset_spec()),
            forall|i: int|
                0 <= i < old(self).misslepool.pool_view().len() && (
                #[trigger] old(self).misslepool.pool_view()[i]).entity.is_active ==> final(self).world.entities_view()[old(self).misslepool.pool_view()[i].entity.id as int]
                    == final(self).misslepool.pool_view()[i].entity,
            forall|i: int|
                0 <= i < old(self).enemypool.pool_view().len() ==> (
                #[trigger] final(self).enemypool.pool_view()[i]).entity.transform == old(self).enemypool.pool_view()[i].entity.transform && final(self).enemypool.pool_view()[i].entity.id == old(self).enemypool.pool_view()[i].entity.id,
    {
        let level_option = self.world.take_level();
        match level_option {
            Some(level) => {
                let mut lvl = level;
                lvl.late_update(&mut self.world, &mut self.misslepool, dt);
                self.world.set_level(Some(lvl));
            },
            None => {},
        }
        let ghost mpl = self.misslepool;
        self.player.late_update(&self.world);
        self.misslepool.late_update(&mut self.world);
        proof {
            assert forall|i: int|
                0 <= i < old(self).misslepool.pool_view().len() && (
                #[trigger] old(self).misslepool.pool_view()[i]).entity.is_active implies (self.misslepool.pool_view()[i]
                == old(self).misslepool.pool_view()[i] || self.misslepool.pool_view()[i] == old(self).misslepool.pool_view()[i].reset_spec()) by {
                assert(mpl.pool_view()[i] == old(self).misslepool.pool_view()[i]);
            }
        }
        self.enemypool.late_update(&self.world);
    }

    /// One full frame of the session's state machine.  The menu starts
    /// play on fire; pause toggles on the pause control; a completed level
    /// moves through the transition to the next; the game-over screen
    /// folds the score into the high score and restarts on fire.  While
    /// running, the primary phase runs every frame, and the fixed and late
    /// phases run exactly when their countdowns have reached zero, each
    /// then rearming to its fixed interval -- otherwise the countdown
    /// falls by the frame time.  A player out of health ends the run.
    pub fn run_frame(&mut self, input: &PlayerInput, dt: i64)
        requires
            old(self).wf(),
            0 <= dt <= FRAME_DT_LIMIT,
            input.pointer.in_range(),
            old(self).gamestate == GameState::GameRunning && !input.pause && !old(self).world.completed() ==> old(self).can_frame(dt as int),
        ensures
            final(self).wf(),
            old(self).gamestate == GameState::MainMenu ==> final(self).gamestate == (if input.fire {
                GameState::GameRunning
            } else {
                GameState::MainMenu
            }) && final(self).world == old(self).world,
            old(self).gamestate == GameState::GamePaused ==> final(self).gamestate == (if input.pause {
                GameState::GameRunning
            } else {
                GameState::GamePaused
            }) && final(self).world == old(self).world,
            old(self).gamestate == GameState::GameRunning && input.pause && !old(self).world.completed() ==> final(self).gamestate == GameState::GamePaused && final(self).world == old(self).world,
            old(self).gamestate == GameState::GameRunning && !input.pause && !old(self).world.completed() ==> (final(self).gamestate == GameState::GameRunning || final(self).gamestate == GameState::GameOver),
            old(self).gamestate == GameState::GameRunning && !input.pause && !old(self).world.completed() ==> final(self).fixed_tick == (if old(self).fixed_tick <= 0 {
                FIXED_UPDATE_TICK as int
            } else {
                old(self).fixed_tick - dt
            }),
            old(self).gamestate == GameState::GameRunning && !input.pause && !old(self).world.completed() ==> final(self).late_tick == (if old(self).late_tick <= 0 {
                LATE_UPDATE_TICK as int
            } else {
                old(self).late_tick - dt
            }),
            old(self).gamestate == GameState::GameRunning && !input.pause && !old(self).world.completed() ==> old(self).world.score() <= final(self).world.score(),
            old(self).gamestate == GameState::GameRunning && !input.pause && !old(self).world.completed() ==> final(self).local_score == final(self).world.score(),
            old(self).gamestate == GameState::GameRunning && !input.pause && !old(self).world.completed() && final(self).gamestate == GameState::GameRunning ==> final(self).world.offset() == old(self).frame_offset(dt as int),
            old(self).gamestate == GameState::GameRunning && !input.pause && !old(self).world.completed() ==> final(self).world.particles_view() == (if old(self).fixed_tick <= 0 {
                crate::particle_sys::pool_stepped(old(self).world.particles_view(), dt as int, 0)
            } else {
                old(self).world.particles_view()
            }),
            old(self).gamestate == GameState::GameRunning && !input.pause && !old(self).world.completed() && old(self).late_tick > 0 ==> forall|i: int|
                0 <= i < old(self).misslepool.pool_view().len() && (
                #[trigger] old(self).misslepool.pool_view()[i]).entity.is_active && old(self).misslepool.pool_view()[i].step_spec(
                    dt as int,
                    old(self).frame_offset(dt as int),
                ).entity.is_active ==> final(self).misslepool.pool_view()[i] == old(self).misslepool.pool_view()[i].step_spec(
                    dt as int,
                    old(self).frame_offset(dt as int),
                ),
            old(self).gamestate == GameState::GameRunning && !input.pause && !old(self).world.completed() && (forall|i: int|
                0 <= i < old(self).enemypool.pool_view().len() && (
                #[trigger] old(self).enemypool.pool_view()[i]).entity.is_active
                    && crate::enemypool::enemy_in_window(
                    old(self).enemypool.pool_view()[i],
                    old(self).frame_offset(dt as int),
                ) ==> old(self).enemypool.pool_view()[i].entity.entity_params.health > 0) ==> final(self).world.score() == old(self).world.score(),
            old(self).gamestate == GameState::Transition || (old(self).gamestate
                == GameState::GameRunning && old(self).world.completed() && !input.pause) ==> final(self).gamestate == GameState::GameRunning && final(self).world.level_view() is Some,
            old(self).gamestate == GameState::LevelCompleted ==> (final(self).gamestate == (if input.fire {
                GameState::GameRunning
            } else {
                GameState::LevelCompleted
            })),
            old(self).gamestate == GameState::GameOver ==> {
                &&& final(self).high_score == (if old(self).local_score > old(self).high_score {
                    old(self).local_score
                } else {
                    old(self).high_score
                })
                &&& (input.fire ==> final(self).gamestate == GameState::GameRunning && final(self).world.score() == 0 && final(self).last_score == old(self).local_score)
                &&& (!input.fire ==> final(self).gamestate == GameState::GameOver)
            },
    {
        if matches!(self.gamestate, GameState::GameRunning) && self.world.get_level_completed()
            && !input.pause {
            self.gamestate = GameState::Transition;
        }
        match self.gamestate {
            GameState::Transition => {
                self.end_level();
                self.next_level();
            },
            GameState::MainMenu => {
                if input.fire {
                    self.gamestate = GameState::GameRunning;
                }
            },
            GameState::GamePaused => {
                if input.pause {
                    self.gamestate = GameState::GameRunning;
                }
            },
            GameState::GameRunning => {
                if input.pause {
                    self.gamestate = GameState::GamePaused;
                } else {
                    self.update(input, dt);
                    let ghost after_update = *self;
                    if self.fixed_tick <= 0 {
                        self.fixed_update(dt);
                        self.fixed_tick = FIXED_UPDATE_TICK;
                    } else {
                        self.fixed_tick = self.fixed_tick - dt;
                    }
                    let ghost before_late = *self;
                    if self.late_tick <= 0 {
                        self.late_update(dt);
                        self.late_tick = LATE_UPDATE_TICK;
                    } else {
                        self.late_tick = self.late_tick - dt;
                    }
                    proof {
                        if old(self).late_tick > 0 {
                            assert(self.misslepool == after_update.misslepool);
                            assert forall|i: int|
                                0 <= i < old(self).misslepool.pool_view().len() && (
                                #[trigger] old(self).misslepool.pool_view()[i]).entity.is_active
                                    && old(self).misslepool.pool_view()[i].step_spec(
                                    dt as int,
                                    old(self).frame_offset(dt as int),
                                ).entity.is_active implies self.misslepool.pool_view()[i] == old(
                                self,
                            ).misslepool.pool_view()[i].step_spec(
                                dt as int,
                                old(self).frame_offset(dt as int),
                            ) by {
                                assert(after_update.misslepool.pool_view()[i] == old(
                                    self,
                                ).misslepool.pool_view()[i].step_spec(
                                    dt as int,
                                    old(self).frame_offset(dt as int),
                                ));
                            }
                        }
                    }
                    if self.player.entity.entity_params.health <= 0 {
                        self.gamestate = GameState::GameOver;
                        self.world.set_level_offset(0);
                    }
                    self.update_score();
                }
            },
            GameState::GameOver => {
                if self.local_score > self.high_score {
                    self.high_score = self.local_score;
                }
                self.end_level();
                if input.fire {
                    self.last_score = self.local_score;
                    self.restart();
                }
            },
            GameState::LevelCompleted => {
                self.end_level();
                if input.fire {
                    self.next_level();
                }
            },
        }
    }
}

} // verus!
