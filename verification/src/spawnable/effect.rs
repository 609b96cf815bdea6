use super::consumable::ConsumableType;
use vstd::prelude::*;

verus! {

/// Type that encompasses all spawnable effects
#[derive(Debug, Hash, PartialEq, Eq, Clone, Copy, Structural)]
pub enum EffectType {
    AllyBlastExplosion,
    AllyBlastDespawn,
    MobExplosion,
    ConsumableDespawn,
    EnemyBlastExplosion,
    EnemyBlastDespawn,
    EnemyBulletExplosion,
    BarrierGlow,
    AllyBulletDespawn,
    EnemyBulletDespawn,
    AllyBulletExplosion,
    Text(TextEffectType),
}

impl Default for EffectType {
    /// An effect is a mob explosion unless stated otherwise.
    fn default() -> (r: Self)
        ensures
            r == EffectType::MobExplosion,
    {
        EffectType::MobExplosion
    }
}

/// Subtype of effect for text effects
#[derive(Debug, Hash, PartialEq, Eq, Clone, Copy, Structural)]
pub enum TextEffectType {
    DamageDealt,
    ConsumableCollected(ConsumableType),
}

} // verus!
