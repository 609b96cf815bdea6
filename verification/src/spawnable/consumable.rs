use vstd::prelude::*;

verus! {

/// Type that encompasses all spawnable consumables
#[derive(Debug, Hash, PartialEq, Eq, Clone, Copy, Structural)]
pub enum ConsumableType {
    Money1,
    Money3,
    HealthWrench,
    Armor,
    GainProjectiles,
}

} // verus!
