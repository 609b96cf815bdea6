//! The kinds of entity that the game can spawn.

use vstd::prelude::*;

pub mod consumable;
pub mod effect;
pub mod item;
pub mod mob;
pub mod projectile;

pub use self::consumable::ConsumableType;
pub use self::effect::{EffectType, TextEffectType};
pub use self::item::{ItemComponent, ItemType};
pub use self::mob::{
    AllyMobType, EnemyMobSegmentType, EnemyMobType, MobDestroyedEvent, MobSegmentDestroyedEvent,
    MobSegmentType, MobType, NeutralMobSegmentType, NeutralMobType,
};
pub use self::projectile::{Faction, ProjectileType};

verus! {

/// Type that encompasses all spawnable entities
#[derive(Debug, Hash, PartialEq, Eq, Clone, Copy, Structural)]
pub enum SpawnableType {
    Projectile(ProjectileType),
    Consumable(ConsumableType),
    Item(ItemType),
    Effect(EffectType),
    Mob(MobType),
    MobSegment(MobSegmentType),
}

impl Default for SpawnableType {
    /// The smallest money pickup stands in where no kind was chosen.
    fn default() -> (r: Self)
        ensures
            r == SpawnableType::Consumable(ConsumableType::Money1),
    {
        SpawnableType::Consumable(ConsumableType::Money1)
    }
}

/// Tag for applying an in-game thing to the closest player based on the player's "gravity" params.
#[derive(Debug, PartialEq, Eq, Clone, Copy, Structural)]
pub struct AttractToClosestPlayerComponent;

} // verus!
