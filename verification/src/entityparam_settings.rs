//! The stat tables: one constructor per actor kind, scaled by the world's
//! difficulty.
//!
//! The difficulty's effect is capped at a thousand levels so every stat
//! stays inside the simulation's range.
use vstd::prelude::*;
use crate::entity::EntityParams;
use crate::world::World;

verus! {

/// The difficulty level as the tables use it: capped at a thousand.
pub open spec fn eff_difficulty(w: World) -> int {
    if w.difficulty() > 1000 {
        1000
    } else {
        w.difficulty() as int
    }
}

/// Reads the capped difficulty.
fn difficulty_of(world: &World) -> (d: i64)
    ensures
        d == eff_difficulty(*world),
        0 <= d <= 1000,
{
    let raw = world.get_difficulty();
    if raw > 1000 {
        1000
    } else {
        raw as i64
    }
}

/// A remembered stat snapshot, saved once and handed back on request.
pub struct SavedEntitySettings {
    entity_settings: EntityParams,
}

impl SavedEntitySettings {
    /// The snapshot currently saved.
    pub closed spec fn saved(self) -> EntityParams {
        self.entity_settings
    }

    /// Starts with the neutral record saved.
    pub fn new() -> (s: SavedEntitySettings)
        ensures
            s.saved() == EntityParams::default_spec(),
    {
        SavedEntitySettings { entity_settings: EntityParams::default() }
    }

    /// Overwrites the saved snapshot.
    pub fn save(&mut self, params: EntityParams)
        ensures
            final(self).saved() == params,
    {
        self.entity_settings = params;
    }

    /// Hands the saved snapshot back.
    pub fn get_settings(&self) -> (p: EntityParams)
        ensures
            p == self.saved(),
    {
        self.entity_settings
    }
}

/// The stat tables themselves.
pub struct EntitySettings {}

impl EntitySettings {
    /// The player's stats; difficulty does not touch them.
    pub fn player_settings() -> (p: EntityParams)
        ensures
            p == (EntityParams {
                health: 100,
                speed: 350,
                damage: 4,
                armor: 4,
                firespeed: 700,
                firerate: 60,
            }),
            p.wf(),
    {
        EntityParams { health: 100, speed: 350, damage: 4, armor: 4, firespeed: 700, firerate: 60 }
    }

    /// Stats of a spawner tile.
    pub fn spawner_settings(world: &World) -> (p: EntityParams)
        ensures
            p == (EntityParams {
                health: (10 + eff_difficulty(*world)) as i64,
                speed: 0,
                damage: 0,
                armor: 5,
                firespeed: 0,
                firerate: 0,
            }),
            p.wf(),
    {
        let d = difficulty_of(world);
        EntityParams { health: 10 + d, speed: 0, damage: 0, armor: 5, firespeed: 0, firerate: 0 }
    }

    /// Stats of a trap tile.
    pub fn trap_settings(world: &World) -> (p: EntityParams)
        ensures
            p == (EntityParams {
                health: (10 + eff_difficulty(*world)) as i64,
                speed: 0,
                damage: (2 + eff_difficulty(*world)) as i64,
                armor: (3 + eff_difficulty(*world) / 2) as i64,
                firespeed: 0,
                firerate: 0,
            }),
            p.wf(),
    {
        let d = difficulty_of(world);
        EntityParams {
            health: 10 + d,
            speed: 0,
            damage: 2 + d,
            armor: 3 + d / 2,
            firespeed: 0,
            firerate: 0,
        }
    }

    /// Stats of a destructible tile.
    pub fn destructible_settings(world: &World) -> (p: EntityParams)
        ensures
            p == (EntityParams {
                health: (10 + eff_difficulty(*world)) as i64,
                speed: 0,
                damage: 0,
                armor: (3 + eff_difficulty(*world) / 2) as i64,
                firespeed: 0,
                firerate: 0,
            }),
            p.wf(),
    {
        let d = difficulty_of(world);
        EntityParams {
            health: 10 + d,
            speed: 0,
            damage: 0,
            armor: 3 + d / 2,
            firespeed: 0,
            firerate: 0,
        }
    }

    /// Stats of a turret tile; difficulty does not touch them.
    pub fn turret_settings(world: &World) -> (p: EntityParams)
        ensures
            p == (EntityParams {
                health: 10,
                speed: 0,
                damage: 3,
                armor: 5,
                firespeed: 300,
                firerate: 10,
            }),
            p.wf(),
    {
        let _ = world;
        EntityParams { health: 10, speed: 0, damage: 3, armor: 5, firespeed: 300, firerate: 10 }
    }

    /// Stats of the default enemy.
    pub fn enemy_default_settings(world: &World) -> (p: EntityParams)
        ensures
            p == (EntityParams {
                health: (5 + 3 * eff_difficulty(*world) / 2) as i64,
                speed: (150 + 5 * eff_difficulty(*world)) as i64,
                damage: (2 + eff_difficulty(*world) / 2) as i64,
                armor: (2 + 3 * eff_difficulty(*world) / 10) as i64,
                firespeed: 0,
                firerate: 0,
            }),
            p.wf(),
    {
        let d = difficulty_of(world);
        EntityParams {
            health: 5 + 3 * d / 2,
            speed: 150 + 5 * d,
            damage: 2 + d / 2,
            armor: 2 + 3 * d / 10,
            firespeed: 0,
            firerate: 0,
        }
    }

    /// Stats of the tank enemy.
    pub fn enemy_tank_settings(world: &World) -> (p: EntityParams)
        ensures
            p == (EntityParams {
                health: (20 + 3 * eff_difficulty(*world)) as i64,
                speed: (120 + 4 * eff_difficulty(*world)) as i64,
                damage: (3 + 3 * eff_difficulty(*world) / 10) as i64,
                armor: (5 + eff_difficulty(*world) / 2) as i64,
                firespeed: (300 + 3 * eff_difficulty(*world)) as i64,
                firerate: (1 + eff_difficulty(*world) / 2) as i64,
            }),
            p.wf(),
    {
        let d = difficulty_of(world);
        EntityParams {
            health: 20 + 3 * d,
            speed: 120 + 4 * d,
            damage: 3 + 3 * d / 10,
            armor: 5 + d / 2,
            firespeed: 300 + 3 * d,
            firerate: 1 + d / 2,
        }
    }

    /// Stats of the gunner enemy.
    pub fn enemy_gunner_settings(world: &World) -> (p: EntityParams)
        ensures
            p == (EntityParams {
                health: (3 + eff_difficulty(*world)) as i64,
                speed: (150 + 5 * eff_difficulty(*world)) as i64,
                damage: (1 + eff_difficulty(*world) / 2) as i64,
                armor: (2 + 3 * eff_difficulty(*world) / 10) as i64,
                firespeed: (300 + 3 * eff_difficulty(*world)) as i64,
                firerate: (1 + 3 * eff_difficulty(*world) / 5) as i64,
            }),
            p.wf(),
    {
        let d = difficulty_of(world);
        EntityParams {
            health: 3 + d,
            speed: 150 + 5 * d,
            damage: 1 + d / 2,
            armor: 2 + 3 * d / 10,
            firespeed: 300 + 3 * d,
            firerate: 1 + 3 * d / 5,
        }
    }

    /// Stats of the heavy gunner enemy; difficulty does not touch them.
    pub fn enemy_heavygunner_settings(world: &World) -> (p: EntityParams)
        ensures
            p == (EntityParams {
                health: 5,
                speed: 250,
                damage: 2,
                armor: 2,
                firespeed: 0,
                firerate: 0,
            }),
            p.wf(),
    {
        let _ = world;
        EntityParams { health: 5, speed: 250, damage: 2, armor: 2, firespeed: 0, firerate: 0 }
    }

    /// Stats of the exploder enemy; difficulty does not touch them.
    pub fn enemy_exploder_settings(world: &World) -> (p: EntityParams)
        ensures
            p == (EntityParams {
                health: 5,
                speed: 250,
                damage: 2,
                armor: 2,
                firespeed: 0,
                firerate: 0,
            }),
            p.wf(),
    {
        let _ = world;
        EntityParams { health: 5, speed: 250, damage: 2, armor: 2, firespeed: 0, firerate: 0 }
    }

    /// Stats of the boss enemy.
    pub fn enemy_boss_settings() -> (p: EntityParams)
        ensures
            p == (EntityParams {
                health: 5,
                speed: 250,
                damage: 2,
                armor: 2,
                firespeed: 0,
                firerate: 0,
            }),
            p.wf(),
    {
        EntityParams { health: 5, speed: 250, damage: 2, armor: 2, firespeed: 0, firerate: 0 }
    }
}

} // verus!
