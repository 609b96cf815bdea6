use vstd::prelude::*;

verus! {

/// Factions
#[derive(Debug, Hash, PartialEq, Eq, Clone, Copy, Structural)]
pub enum Faction {
    Ally,
    Enemy,
    Neutral,
}

/// Type that encompasses all weapon projectiles
#[derive(Debug, Hash, PartialEq, Eq, Clone, Copy, Structural)]
pub enum ProjectileType {
    Blast(Faction),
    Bullet(Faction),
}

impl ProjectileType {
    /// The faction that fired the projectile.
    pub open spec fn faction(self) -> Faction {
        match self {
            ProjectileType::Blast(faction) => faction,
            ProjectileType::Bullet(faction) => faction,
        }
    }

    /// The faction that fired the projectile, whatever its kind.
    pub fn get_faction(&self) -> (r: Faction)
        ensures
            r == self.faction(),
    {
        match self {
            ProjectileType::Blast(faction) => *faction,
            ProjectileType::Bullet(faction) => *faction,
        }
    }
}

} // verus!
