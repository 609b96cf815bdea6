//! The playable characters.

use crate::ability::AbilityLoadout;
use std::collections::VecDeque;
use std::time::Duration;
use vstd::prelude::*;

verus! {

/// The playable character types. To a player, these will have different appearances and abilities.
#[derive(Debug, Hash, PartialEq, Eq, Clone, Copy, Structural)]
pub enum CharacterType {
    Captain,
    Juggernaut,
}

impl Default for CharacterType {
    /// A player who has not chosen plays the captain.
    fn default() -> (r: Self)
        ensures
            r == CharacterType::Captain,
    {
        CharacterType::Captain
    }
}

impl CharacterType {
    /// Every character type, in the order in which a player browses them.
    pub open spec fn all() -> Seq<CharacterType> {
        seq![CharacterType::Captain, CharacterType::Juggernaut]
    }

    /// Every character type, in the order in which a player browses them.
    pub fn to_vec() -> (characters: VecDeque<CharacterType>)
        ensures
            characters@ == Self::all(),
    {
        let mut characters: VecDeque<CharacterType> = VecDeque::new();
        characters.push_back(CharacterType::Captain);
        characters.push_back(CharacterType::Juggernaut);
        characters
    }
}

/// What the rules read of a character's sheet. The base stats of the player are
/// provided from the character; how the character moves and looks is kept by the
/// engine's side.
#[derive(Debug, Clone)]
pub struct Character {
    /// Character type
    pub character_type: CharacterType,
    /// Health of the player
    pub health: usize,
    /// Shields of the player
    pub shields: usize,
    /// Amount of damage dealt on contact
    pub collision_damage: usize,
    /// Amount of money character has collected
    pub money: usize,
    /// Ability cooldown time
    pub ability_period: Duration,
    /// All of the player abilities
    pub ability_loadout: AbilityLoadout,
    /// Damage of a projectile
    pub damage: usize,
    /// Projectiles fired at once
    pub projectile_count: usize,
}

} // verus!
