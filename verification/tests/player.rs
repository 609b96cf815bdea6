use bevy_time::TimerMode;
use std::time::Duration;
use thetawave::ability::{AbilityLoadout, PrimaryAttackType, SecondaryAttackType};
use thetawave::character::{Character, CharacterType};
use thetawave::player::{
    InputRestrictions, InputRestrictionsAtSpawn, PlayerBundle, PlayerComponent, PlayerData,
    PlayerInput, PlayerStatusComponent, PlayersResource,
};

fn juggernaut() -> Character {
    Character {
        character_type: CharacterType::Juggernaut,
        health: 150,
        shields: 50,
        collision_damage: 12,
        money: 7,
        ability_period: Duration::from_millis(2500),
        ability_loadout: AbilityLoadout {
            primary_attack: PrimaryAttackType::FireBullets,
            secondary_attack: SecondaryAttackType::Charge,
        },
        damage: 20,
        projectile_count: 1,
    }
}

#[test]
fn players_resource_starts_with_four_empty_slots() {
    let players = PlayersResource::default();
    assert_eq!(players.player_data, vec![None, None, None, None]);
    assert!(players.get_used_inputs().is_empty());
}

#[test]
fn used_inputs_skip_empty_slots_and_keep_order() {
    let players = PlayersResource {
        player_data: vec![
            None,
            Some(PlayerData { character: CharacterType::Captain, input: PlayerInput::Gamepad(3) }),
            None,
            Some(PlayerData { character: CharacterType::Juggernaut, input: PlayerInput::Keyboard }),
            Some(PlayerData { character: CharacterType::Captain, input: PlayerInput::Gamepad(0) }),
        ],
    };
    assert_eq!(
        players.get_used_inputs(),
        vec![PlayerInput::Gamepad(3), PlayerInput::Keyboard, PlayerInput::Gamepad(0)]
    );
}

#[test]
fn default_player_can_do_anything() {
    let restrictions = InputRestrictionsAtSpawn::default();
    assert!(restrictions.0.forbid_main_attack_reason.is_none());
    assert!(restrictions.0.forbid_special_attack_reason.is_none());
    assert!(PlayerStatusComponent::default().movement_enabled);
    assert_eq!(CharacterType::default(), CharacterType::Captain);
}

#[test]
fn player_component_takes_its_stats_from_the_character() {
    let player = PlayerComponent::from(&juggernaut());
    assert_eq!(player.collision_damage, 12);
    assert_eq!(player.money, 7);
    assert_eq!(player.player_index, 0);
    assert!(player.ability_action_timer.is_none());
    assert_eq!(player.ability_cooldown_timer.duration(), Duration::from_millis(2500));
    assert_eq!(player.ability_cooldown_timer.elapsed(), Duration::ZERO);
    assert_eq!(player.ability_cooldown_timer.mode(), TimerMode::Once);
    assert!(!player.ability_cooldown_timer.is_finished());
    assert!(player.ability_is_enabled());
}

#[test]
fn special_attacks_follow_the_pause_of_the_cooldown() {
    let mut player = PlayerComponent::from(&juggernaut());
    player.ability_cooldown_timer.tick(Duration::from_millis(300));
    player.disable_special_attacks();
    assert!(!player.ability_is_enabled());
    assert!(player.ability_cooldown_timer.is_paused());
    assert_eq!(player.ability_cooldown_timer.elapsed(), Duration::from_millis(300));
    assert_eq!(player.money, 7);
    player.enable_special_attacks();
    assert!(player.ability_is_enabled());
    assert_eq!(player.ability_cooldown_timer.elapsed(), Duration::from_millis(300));
    assert_eq!(player.ability_cooldown_timer.duration(), Duration::from_millis(2500));
}

#[test]
fn spawn_restrictions_disable_special_attacks() {
    let free = PlayerBundle::from_character_with_params(
        &juggernaut(),
        &InputRestrictionsAtSpawn::default(),
    );
    assert!(free.player_core.ability_is_enabled());
    assert!(free.player_status.movement_enabled);
    let restricted = PlayerBundle::from_character_with_params(
        &juggernaut(),
        &InputRestrictionsAtSpawn(InputRestrictions {
            forbid_main_attack_reason: None,
            forbid_special_attack_reason: Some(String::from("tutorial")),
        }),
    );
    assert!(!restricted.player_core.ability_is_enabled());
    assert_eq!(restricted.player_core.collision_damage, 12);
    assert_eq!(
        restricted.player_core.ability_cooldown_timer.duration(),
        Duration::from_millis(2500)
    );
    let main_only = PlayerBundle::from_character_with_params(
        &juggernaut(),
        &InputRestrictionsAtSpawn(InputRestrictions {
            forbid_main_attack_reason: Some(String::from("tutorial")),
            forbid_special_attack_reason: None,
        }),
    );
    assert!(main_only.player_core.ability_is_enabled());
    let plain = PlayerBundle::from(&juggernaut());
    assert!(plain.player_core.ability_is_enabled());
    assert_eq!(plain.player_core.money, 7);
}
