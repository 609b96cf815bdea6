//! Contacts between entities, as the physics engine reports them once they are
//! sorted by the kinds of entity involved. An entity is named by the 64 bits of
//! its identifier.

use crate::spawnable::Faction;
use vstd::prelude::*;

verus! {

/// A contact between two entities, sorted by what they are. Each side carries
/// the damage that it deals to the other.
#[derive(Debug, PartialEq, Eq, Clone, Copy, Structural)]
pub enum SortedCollisionEvent {
    PlayerToMobSegmentContact {
        player_entity: u64,
        mob_segment_entity: u64,
        mob_segment_faction: Faction,
        player_damage: usize,
        mob_segment_damage: usize,
    },
    MobToMobSegmentContact {
        mob_segment_entity: u64,
        mob_segment_faction: Faction,
        mob_segment_damage: usize,
        mob_entity: u64,
        mob_faction: Faction,
        mob_damage: usize,
    },
    MobSegmentToMobSegmentContact {
        mob_segment_entity_1: u64,
        mob_segment_faction_1: Faction,
        mob_segment_damage_1: usize,
        mob_segment_entity_2: u64,
        mob_segment_faction_2: Faction,
        mob_segment_damage_2: usize,
    },
    /// A contact of any other kind.
    Other,
}

/// Two colliders whose shapes overlap, each named by the entity that owns it.
#[derive(Debug, PartialEq, Eq, Clone, Copy, Structural)]
pub struct IntersectionEvent {
    pub collider1: u64,
    pub collider2: u64,
}

/// The number of times that `entity` occurs among `entities`.
pub open spec fn occurrences(entities: Seq<u64>, entity: u64) -> nat
    decreases entities.len(),
{
    if entities.len() == 0 {
        0
    } else {
        occurrences(entities.drop_last(), entity) + if entities.last() == entity {
            1nat
        } else {
            0nat
        }
    }
}

/// An entity occurs among others exactly if its number of occurrences is not zero.
pub proof fn lemma_occurrences_contains(entities: Seq<u64>, entity: u64)
    ensures
        occurrences(entities, entity) > 0 <==> entities.contains(entity),
        occurrences(entities, entity) <= entities.len(),
    decreases entities.len(),
{
    if entities.len() > 0 {
        lemma_occurrences_contains(entities.drop_last(), entity);
        if entities.drop_last().contains(entity) {
            let i = choose|i: int| 0 <= i < entities.len() - 1 && entities.drop_last()[i] == entity;
        }
        if entities.contains(entity) && entities.last() != entity {
            let i = choose|i: int| 0 <= i < entities.len() && entities[i] == entity;
            assert(entities.drop_last()[i] == entity);
        }
    }
}

/// Tells whether `entity` is one of `entities`.
pub fn contains_entity(entities: &Vec<u64>, entity: u64) -> (found: bool)
    ensures
        found == entities@.contains(entity),
{
    let mut i: usize = 0;
    while i < entities.len()
        invariant
            i <= entities.len(),
            forall|j: int| 0 <= j < i ==> entities@[j] != entity,
        decreases entities.len() - i,
    {
        if entities[i] == entity {
            return true;
        }
        i += 1;
    }
    false
}

} // verus!
