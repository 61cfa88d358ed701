//! Simulation core of a 2D side-scrolling arcade shooter.
//!
//! The crate models the world-state registry, the fixed-capacity object
//! pools for missiles and enemies, the collision and visibility predicates,
//! and the per-frame update pipeline that ties them together.  Geometry is
//! carried in fixed-point integers: every world unit is `SUBUNIT` steps, and
//! time is counted in milliseconds, so all motion arithmetic is exact and
//! provable.  Rendering, audio, asset loading and input polling are left to
//! the embedding program, which drives the pipeline with plain values.
use vstd::prelude::*;

pub mod collision;
pub mod enemy;
pub mod enemy_spawner;
pub mod enemypool;
pub mod enemytypes;
pub mod entity;
pub mod entityparam_settings;
pub mod game;
pub mod gamestate;
pub mod geom;
pub mod level;
pub mod levelloader;
pub mod missle;
pub mod particle_sys;
pub mod player;
pub mod renderer;
pub mod weapon;
pub mod world;

verus! {

/// Fixed-point steps per world unit.
pub const SUBUNIT: i64 = 1000;

/// Width of the visible play window, in fixed-point steps (1920 units).
pub const GAME_SIZE_X: i64 = 1_920_000;

/// Height of the visible play window, in fixed-point steps (1080 units).
pub const GAME_SIZE_Y: i64 = 1_080_000;

/// Horizontal scroll speed of the level, in world units per second.
pub const LEVEL_SPEED: i64 = 300;

/// Interval of the collision-resolution phase, in milliseconds.
pub const LATE_UPDATE_TICK: i64 = 65;

/// Interval of the particle/physics phase, in milliseconds.
pub const FIXED_UPDATE_TICK: i64 = 10;

/// Level chosen when a fresh session starts.
pub const SELECTED_LEVEL: usize = 0;

/// Largest coordinate magnitude the simulation admits, in fixed-point steps.
pub const COORD_LIMIT: i64 = 1_000_000_000;

/// Largest frame time the simulation admits, in milliseconds.
pub const DT_LIMIT: i64 = 1_000_000;

/// Largest magnitude a gameplay stat (speed, damage, ...) may hold.
pub const STAT_LIMIT: i64 = 1_000_000;

/// Why a pool could not satisfy a spawn request.
#[derive(Clone, Copy, PartialEq, Eq, Structural, Debug)]
pub enum PoolError {
    /// Every slot is active: the request is dropped, nothing is queued.
    Exhausted,
}

} // verus!
