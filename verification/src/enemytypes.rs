//! The enemy variants: which stats, size, point value and weapon each
//! enemy kind carries.
use vstd::prelude::*;
use crate::entity::{EntityName, EntityParams, Tag};
use crate::entityparam_settings::{eff_difficulty, EntitySettings};
use crate::geom::Vec2i;
use crate::weapon::Weapon;
use crate::world::World;
use crate::{STAT_LIMIT, SUBUNIT};

verus! {

/// The closed set of enemy kinds a spawner can be configured for.
#[derive(Clone, Copy, PartialEq, Eq, Structural, Debug)]
pub enum EnemyType {
    Default,
    Gunner,
    Tank,
    HeavyGunner,
    Exploder,
    Boss,
}

/// One enemy kind's configuration: its stat record, logical size, point
/// value awarded on destruction, and its weapon, if the kind carries one.
#[derive(Clone, Copy, PartialEq, Eq, Structural, Debug)]
pub struct EnemyVariant {
    pub params: EntityParams,
    pub size: Vec2i,
    pub points: i64,
    pub weapon: Option<Weapon>,
}

impl EnemyVariant {
    /// Stats, size, points and the weapon (if any) are all in range.
    pub open spec fn wf(self) -> bool {
        &&& self.params.wf()
        &&& 0 <= self.size.x <= 1000 * SUBUNIT
        &&& 0 <= self.size.y <= 1000 * SUBUNIT
        &&& 0 <= self.points <= STAT_LIMIT
        &&& match self.weapon {
            Some(w) => w.wf(),
            None => true,
        }
    }

    /// Whether this kind fires back.
    pub fn has_weapon(&self) -> (r: bool)
        ensures
            r == (self.weapon is Some),
    {
        self.weapon.is_some()
    }

    /// The default variant: no weapon, eighty units square, twenty points.
    pub fn default_variant(world: &World) -> (v: EnemyVariant)
        ensures
            v.wf(),
            v.params.health == 5 + 3 * eff_difficulty(*world) / 2,
            v.params.speed == 150 + 5 * eff_difficulty(*world),
            v.size == (Vec2i { x: ((80 * SUBUNIT) as i64), y: ((80 * SUBUNIT) as i64) }),
            v.points == 20,
            v.weapon is None,
    {
        EnemyVariant {
            params: EntitySettings::enemy_default_settings(world),
            size: Vec2i { x: 80 * SUBUNIT, y: 80 * SUBUNIT },
            points: 20,
            weapon: None,
        }
    }

    /// The tank variant: armed, a hundred and twenty units square, fifty
    /// points.  Its weapon entity is registered with the world.
    pub fn tank_variant(world: &mut World) -> (v: EnemyVariant)
        requires
            old(world).wf(),
            old(world).entities_view().len() < usize::MAX,
        ensures
            final(world).wf(),
            v.wf(),
            v.params.health == 20 + 3 * eff_difficulty(*old(world)),
            v.size == (Vec2i { x: ((120 * SUBUNIT) as i64), y: ((120 * SUBUNIT) as i64) }),
            v.points == 50,
            v.weapon is Some,
            v.weapon->Some_0.entity.tag == Tag::EnemyWeapon,
            v.weapon->Some_0.entity.entity_params == v.params,
            final(world).entities_view().len() == old(world).entities_view().len() + 1,
            final(world).score() == old(world).score(),
            final(world).offset() == old(world).offset(),
            final(world).completed() == old(world).completed(),
            final(world).difficulty() == old(world).difficulty(),
            final(world).level_view() == old(world).level_view(),
            final(world).particles_view() == old(world).particles_view(),
    {
        let params = EntitySettings::enemy_tank_settings(world);
        let mut weapon = Weapon::new(EntityName::TankWeapon, Tag::EnemyWeapon, world);
        weapon.entity.entity_params = params;
        weapon.set_stats(params.damage, params.firerate, params.firespeed);
        world.set_entity(&weapon.entity);
        EnemyVariant {
            params,
            size: Vec2i { x: 120 * SUBUNIT, y: 120 * SUBUNIT },
            points: 50,
            weapon: Some(weapon),
        }
    }

    /// The gunner variant: armed, eighty units square, ten points.  Its
    /// weapon entity is registered with the world.
    pub fn gunner_variant(world: &mut World) -> (v: EnemyVariant)
        requires
            old(world).wf(),
            old(world).entities_view().len() < usize::MAX,
        ensures
            final(world).wf(),
            v.wf(),
            v.params.health == 3 + eff_difficulty(*old(world)),
            v.size == (Vec2i { x: ((80 * SUBUNIT) as i64), y: ((80 * SUBUNIT) as i64) }),
            v.points == 10,
            v.weapon is Some,
            v.weapon->Some_0.entity.tag == Tag::EnemyWeapon,
            v.weapon->Some_0.entity.entity_params == v.params,
            final(world).entities_view().len() == old(world).entities_view().len() + 1,
            final(world).score() == old(world).score(),
            final(world).offset() == old(world).offset(),
            final(world).completed() == old(world).completed(),
            final(world).difficulty() == old(world).difficulty(),
            final(world).level_view() == old(world).level_view(),
            final(world).particles_view() == old(world).particles_view(),
    {
        let params = EntitySettings::enemy_gunner_settings(world);
        let mut weapon = Weapon::new(EntityName::GunnerWeapon, Tag::EnemyWeapon, world);
        weapon.entity.entity_params = params;
        weapon.set_stats(params.damage, params.firerate, params.firespeed);
        world.set_entity(&weapon.entity);
        EnemyVariant {
            params,
            size: Vec2i { x: 80 * SUBUNIT, y: 80 * SUBUNIT },
            points: 10,
            weapon: Some(weapon),
        }
    }

    /// Looks a kind's variant up: the heavy gunner shares the tank's
    /// configuration, the exploder and the boss share the gunner's.
    pub fn get_variant(e_type: EnemyType, world: &mut World) -> (v: EnemyVariant)
        requires
            old(world).wf(),
            old(world).entities_view().len() < usize::MAX,
        ensures
            final(world).wf(),
            v.wf(),
            e_type == EnemyType::Default ==> v.weapon is None && v.points == 20 && final(world).entities_view() == old(world).entities_view(),
            e_type != EnemyType::Default ==> v.weapon is Some && final(world).entities_view().len() == old(world).entities_view().len() + 1,
            old(world).entities_view().len() <= final(world).entities_view().len() <= old(world).entities_view().len() + 1,
            final(world).score() == old(world).score(),
            final(world).offset() == old(world).offset(),
            final(world).completed() == old(world).completed(),
            final(world).difficulty() == old(world).difficulty(),
            final(world).level_view() == old(world).level_view(),
            final(world).particles_view() == old(world).particles_view(),
    {
        match e_type {
            EnemyType::Default => EnemyVariant::default_variant(world),
            EnemyType::Gunner => EnemyVariant::gunner_variant(world),
            EnemyType::Tank => EnemyVariant::tank_variant(world),
            EnemyType::HeavyGunner => EnemyVariant::tank_variant(world),
            EnemyType::Exploder => EnemyVariant::gunner_variant(world),
            EnemyType::Boss => EnemyVariant::gunner_variant(world),
        }
    }
}

} // verus!
