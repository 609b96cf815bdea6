//! The abilities that a player can activate.

use bevy_time::Timer;
use vstd::prelude::*;

verus! {

/// Player activatable ability
#[derive(Debug, PartialEq, Eq, Clone, Copy, Structural)]
pub enum Ability {
    PrimaryAttack(PrimaryAttackType),
    SecondaryAttack(SecondaryAttackType),
}

/// Low damage and short cooldown attack
#[derive(Debug, PartialEq, Eq, Clone, Copy, Structural)]
pub enum PrimaryAttackType {
    FireBlasts,
    FireBullets,
}

/// High damage and long cooldown attack
#[derive(Debug, PartialEq, Eq, Clone, Copy, Structural)]
pub enum SecondaryAttackType {
    MegaBlast,
    Charge,
}

/// The two attacks that a character brings.
#[derive(Debug, PartialEq, Eq, Clone, Copy, Structural)]
pub struct AbilityLoadout {
    pub primary_attack: PrimaryAttackType,
    pub secondary_attack: SecondaryAttackType,
}

/// The slot of the player's controls that an ability is bound to.
#[derive(Debug, PartialEq, Eq, Clone, Copy, Structural)]
pub enum AbilitySlotIDComponent {
    One,
    Two,
}

/// The kinds of ability that a slot can hold.
#[derive(Debug, PartialEq, Eq, Clone, Copy, Structural)]
pub enum AbilityType {
    Charge,
    StandardBlast,
    StandardBullet,
    MegaBlast,
}

/// The state of a player's charge ability.
#[derive(Clone)]
pub struct ChargeAilityComponent {
    /// Tracks time until next charge can be used
    pub recharge_timer: Timer,
    /// Initial delay before first charge can be used
    pub initial_timer: Timer,
    /// Whether the ability can currently be used
    pub is_enabled: bool,
}

} // verus!
