use vstd::prelude::*;

verus! {

/// Type that encompasses all spawnable items
#[derive(Debug, Hash, PartialEq, Eq, Clone, Copy, Structural)]
pub enum ItemType {
    EnhancedPlating,
}

/// Marks an entity as an item of the given type.
#[derive(Debug, PartialEq, Eq, Clone, Copy, Structural)]
pub struct ItemComponent {
    pub item_type: ItemType,
}

} // verus!
