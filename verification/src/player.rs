//! The players of a game: who has joined, with which input device and character,
//! and what each is allowed to do.

use crate::character::{Character, CharacterType};
use crate::clock::{
    duration_nanos, timer_is_paused, timer_once, timer_pause, timer_state, timer_unpause,
    TimerState,
};
use bevy_time::Timer;
use vstd::prelude::*;

verus! {

/// Things the player is not allowed to do.
#[derive(Debug, Clone)]
pub struct InputRestrictions {
    pub forbid_main_attack_reason: Option<String>,
    pub forbid_special_attack_reason: Option<String>,
}

impl Default for InputRestrictions {
    /// Nothing is forbidden.
    fn default() -> (r: Self)
        ensures
            r.forbid_main_attack_reason.is_none(),
            r.forbid_special_attack_reason.is_none(),
    {
        InputRestrictions { forbid_main_attack_reason: None, forbid_special_attack_reason: None }
    }
}

/// Parameters for how to spawn new players. By default, the player can do anything.
#[derive(Debug, Clone)]
pub struct InputRestrictionsAtSpawn(pub InputRestrictions);

impl Default for InputRestrictionsAtSpawn {
    /// Nothing is forbidden.
    fn default() -> (r: Self)
        ensures
            r.0.forbid_main_attack_reason.is_none(),
            r.0.forbid_special_attack_reason.is_none(),
    {
        InputRestrictionsAtSpawn(InputRestrictions::default())
    }
}

/// Player input
#[derive(Debug, PartialEq, Eq, Clone, Copy, Structural)]
pub enum PlayerInput {
    Keyboard,
    Gamepad(usize),
}

/// The character and input device of a player who has joined.
#[derive(Debug, PartialEq, Eq, Clone, Copy, Structural)]
pub struct PlayerData {
    pub character: CharacterType,
    pub input: PlayerInput,
}

/// The slots of the players, in the order of their indices. An empty slot is
/// `None`.
#[derive(Debug, Clone)]
pub struct PlayersResource {
    pub player_data: Vec<Option<PlayerData>>,
}

/// Whether the player responds to move inputs
#[derive(Debug, PartialEq, Eq, Clone, Copy, Structural)]
pub struct PlayerStatusComponent {
    pub movement_enabled: bool,
}

impl Default for PlayerStatusComponent {
    /// A player can move unless told otherwise.
    fn default() -> (r: Self)
        ensures
            r.movement_enabled,
    {
        PlayerStatusComponent { movement_enabled: true }
    }
}

/// The input of a slot, if the slot is taken.
pub open spec fn slot_input(slot: Option<PlayerData>) -> Option<PlayerInput> {
    match slot {
        Some(data) => Some(data.input),
        None => None,
    }
}

/// The inputs of the slots that are taken, in the order of the slots.
pub open spec fn used_inputs(slots: Seq<Option<PlayerData>>) -> Seq<PlayerInput> {
    slots.filter_map(|slot: Option<PlayerData>| slot_input(slot))
}

impl Default for PlayersResource {
    /// Four slots, all of them empty.
    fn default() -> (r: Self)
        ensures
            r.player_data@ == seq![None::<PlayerData>, None, None, None],
    {
        let mut player_data: Vec<Option<PlayerData>> = Vec::new();
        player_data.push(None);
        player_data.push(None);
        player_data.push(None);
        player_data.push(None);
        PlayersResource { player_data }
    }
}

impl PlayersResource {
    /// The inputs that are in use: one for each slot that is taken, in the order
    /// of the slots.
    pub fn get_used_inputs(&self) -> (inputs: Vec<PlayerInput>)
        ensures
            inputs@ == used_inputs(self.player_data@),
    {
        let mut inputs: Vec<PlayerInput> = Vec::new();
        let mut i: usize = 0;
        while i < self.player_data.len()
            invariant
                i <= self.player_data.len(),
                inputs@ == used_inputs(self.player_data@.take(i as int)),
            decreases self.player_data.len() - i,
        {
            proof {
                assert(self.player_data@.take(i + 1).drop_last() =~= self.player_data@.take(
                    i as int,
                ));
            }
            match self.player_data[i] {
                Some(data) => {
                    inputs.push(data.input);
                },
                None => {},
            }
            i += 1;
        }
        proof {
            assert(self.player_data@.take(i as int) =~= self.player_data@);
        }
        inputs
    }
}

/// Component for managing core attributes of the player
#[derive(Debug, Clone)]
pub struct PlayerComponent {
    /// Amount of damage dealt on contact
    pub collision_damage: usize,
    /// Amount of money character has collected
    pub money: usize,
    /// Timer for ability cooldown. Special attacks are disabled while it is paused.
    pub ability_cooldown_timer: Timer,
    /// Timer for ability action
    pub ability_action_timer: Option<Timer>,
    /// Index of the player
    pub player_index: usize,
}

/// What is spawned for a player besides the engine's own parts.
#[derive(Debug, Clone)]
pub struct PlayerBundle {
    pub player_status: PlayerStatusComponent,
    pub player_core: PlayerComponent,
}

impl PlayerComponent {
    /// Whether this is the core of a player who has just been made from
    /// `character`: with the character's damage and money, a cooldown that runs
    /// once over the character's ability period, no ability in action, and the
    /// index zero.
    pub open spec fn made_from(self, character: Character) -> bool {
        &&& self.collision_damage == character.collision_damage
        &&& self.money == character.money
        &&& timer_state(self.ability_cooldown_timer) == TimerState {
            elapsed: 0,
            duration: duration_nanos(character.ability_period),
            repeating: false,
            paused: false,
            finished: false,
            times_finished: 0,
        }
        &&& self.ability_action_timer.is_none()
        &&& self.player_index == 0
    }

    /// Whether `self` is `before` but for the pause of the cooldown, which is
    /// `paused`.
    pub open spec fn is_with_pause(self, before: PlayerComponent, paused: bool) -> bool {
        &&& self.collision_damage == before.collision_damage
        &&& self.money == before.money
        &&& timer_state(self.ability_cooldown_timer) == TimerState {
            paused,
            ..timer_state(before.ability_cooldown_timer)
        }
        &&& self.ability_action_timer == before.ability_action_timer
        &&& self.player_index == before.player_index
    }

    /// Forbids special attacks, by pausing the cooldown.
    pub fn disable_special_attacks(&mut self)
        ensures
            final(self).is_with_pause(*old(self), true),
    {
        timer_pause(&mut self.ability_cooldown_timer);
    }

    /// Whether special attacks are allowed: the cooldown is not paused.
    pub fn ability_is_enabled(&self) -> (enabled: bool)
        ensures
            enabled == !timer_state(self.ability_cooldown_timer).paused,
    {
        !timer_is_paused(&self.ability_cooldown_timer)
    }

    /// Allows special attacks again, by letting the cooldown run.
    pub fn enable_special_attacks(&mut self)
        ensures
            final(self).is_with_pause(*old(self), false),
    {
        timer_unpause(&mut self.ability_cooldown_timer);
    }
}

/// The conversion names no value: a timer is known by its state alone, which the
/// contract of `from` gives.
impl vstd::std_specs::convert::FromSpecImpl<&Character> for PlayerComponent {
    open spec fn obeys_from_spec() -> bool {
        false
    }

    open spec fn from_spec(character: &Character) -> PlayerComponent {
        arbitrary()
    }
}

impl From<&Character> for PlayerComponent {
    /// The core of a new player who plays `character`.
    fn from(character: &Character) -> (player: PlayerComponent)
        ensures
            player.made_from(*character),
    {
        PlayerComponent {
            collision_damage: character.collision_damage,
            money: character.money,
            ability_cooldown_timer: timer_once(character.ability_period),
            ability_action_timer: None,
            player_index: 0,
        }
    }
}

/// The conversion names no value: a timer is known by its state alone, which the
/// contract of `from` gives.
impl vstd::std_specs::convert::FromSpecImpl<&Character> for PlayerBundle {
    open spec fn obeys_from_spec() -> bool {
        false
    }

    open spec fn from_spec(character: &Character) -> PlayerBundle {
        arbitrary()
    }
}

impl From<&Character> for PlayerBundle {
    /// A new player who plays `character` and can move.
    fn from(character: &Character) -> (bundle: PlayerBundle)
        ensures
            bundle.player_core.made_from(*character),
            bundle.player_status.movement_enabled,
    {
        PlayerBundle {
            player_core: PlayerComponent::from(character),
            player_status: PlayerStatusComponent::default(),
        }
    }
}

impl PlayerBundle {
    /// A new player who plays `character`, under the restrictions of
    /// `spawn_params`: special attacks are disabled if a reason to forbid them is
    /// given.
    pub fn from_character_with_params(
        character: &Character,
        spawn_params: &InputRestrictionsAtSpawn,
    ) -> (bundle: PlayerBundle)
        ensures
            bundle.player_status.movement_enabled,
            bundle.player_core.collision_damage == character.collision_damage,
            bundle.player_core.money == character.money,
            bundle.player_core.ability_action_timer.is_none(),
            bundle.player_core.player_index == 0,
            timer_state(bundle.player_core.ability_cooldown_timer) == (TimerState {
                elapsed: 0,
                duration: duration_nanos(character.ability_period),
                repeating: false,
                paused: spawn_params.0.forbid_special_attack_reason.is_some(),
                finished: false,
                times_finished: 0,
            }),
    {
        let mut res = PlayerBundle::from(character);
        if spawn_params.0.forbid_special_attack_reason.is_some() {
            res.player_core.disable_special_attacks();
        }
        res
    }
}

} // verus!
