use bevy_time::{Timer, TimerMode};
use std::time::Duration;
use thetawave::character::CharacterType;
use thetawave::input::{contains_action, MenuAction};
use thetawave::player::{PlayerData, PlayerInput, PlayersResource};
use thetawave::spawnable::EnemyMobType;
use thetawave::states::{
    close_pause_menu_system, open_pause_menu_system, GameStates, PauseMenuChange,
};
use thetawave::ui::border_gradient::{
    border_gradient_on_gate_interaction, border_gradient_start_system, BorderGradientType,
    DefenseInteraction,
};
use thetawave::ui::character_selection::{
    character_selection_keyboard_gamepad, character_selection_mouse_click, contains_input,
    keyboard_player, player_join, uses_gamepad, ButtonActionEvent, CharacterCarousel, Interaction,
    PlayerJoinEvent,
};
use thetawave::ui::{append_decimal, enemy_mob_variant_name, pprint_mob_kills_from_data};

fn slot(character: CharacterType, input: PlayerInput) -> Option<PlayerData> {
    Some(PlayerData { character, input })
}

#[test]
fn carousel_starts_with_every_character() {
    let carousel = CharacterCarousel::new(2);
    assert_eq!(carousel.player_idx, 2);
    assert_eq!(
        carousel.characters.iter().copied().collect::<Vec<_>>(),
        vec![CharacterType::Captain, CharacterType::Juggernaut]
    );
    assert_eq!(
        carousel.get_visible_characters(),
        [CharacterType::Juggernaut, CharacterType::Captain, CharacterType::Juggernaut]
    );
}

#[test]
fn carousel_turns_both_ways() {
    let mut carousel = CharacterCarousel {
        player_idx: 0,
        characters: vec![
            CharacterType::Captain,
            CharacterType::Juggernaut,
            CharacterType::Juggernaut,
            CharacterType::Captain,
            CharacterType::Captain,
        ]
        .into(),
    };
    carousel.rotate_right();
    assert_eq!(
        carousel.characters.iter().copied().collect::<Vec<_>>(),
        vec![
            CharacterType::Captain,
            CharacterType::Captain,
            CharacterType::Juggernaut,
            CharacterType::Juggernaut,
            CharacterType::Captain,
        ]
    );
    carousel.rotate_left();
    carousel.rotate_left();
    assert_eq!(
        carousel.characters.iter().copied().collect::<Vec<_>>(),
        vec![
            CharacterType::Juggernaut,
            CharacterType::Juggernaut,
            CharacterType::Captain,
            CharacterType::Captain,
            CharacterType::Captain,
        ]
    );
    assert_eq!(
        carousel.get_visible_characters(),
        [CharacterType::Captain, CharacterType::Juggernaut, CharacterType::Juggernaut]
    );
}

#[test]
fn small_carousels_show_the_default_character() {
    let mut empty = CharacterCarousel { player_idx: 0, characters: Vec::new().into() };
    empty.rotate_left();
    empty.rotate_right();
    assert!(empty.characters.is_empty());
    assert_eq!(empty.get_visible_characters(), [CharacterType::Captain; 3]);
    let mut single =
        CharacterCarousel { player_idx: 0, characters: vec![CharacterType::Juggernaut].into() };
    single.rotate_left();
    assert_eq!(single.characters.len(), 1);
    assert_eq!(single.get_visible_characters(), [CharacterType::Captain; 3]);
}

#[test]
fn turning_the_carousel_picks_the_players_character() {
    let mut players = PlayersResource {
        player_data: vec![
            slot(CharacterType::Captain, PlayerInput::Keyboard),
            slot(CharacterType::Captain, PlayerInput::Gamepad(4)),
        ],
    };
    let mut carousel = CharacterCarousel::new(1);
    let shown =
        carousel.apply_button_event(ButtonActionEvent::CharacterSelectLeft(1), &mut players);
    assert_eq!(
        shown,
        Some([CharacterType::Captain, CharacterType::Juggernaut, CharacterType::Captain])
    );
    assert_eq!(
        players.player_data,
        vec![
            slot(CharacterType::Captain, PlayerInput::Keyboard),
            slot(CharacterType::Juggernaut, PlayerInput::Gamepad(4)),
        ]
    );
    let shown =
        carousel.apply_button_event(ButtonActionEvent::CharacterSelectRight(1), &mut players);
    assert_eq!(
        shown,
        Some([CharacterType::Juggernaut, CharacterType::Captain, CharacterType::Juggernaut])
    );
    assert_eq!(players.player_data[1], slot(CharacterType::Captain, PlayerInput::Gamepad(4)));
}

#[test]
fn other_events_leave_the_carousel_alone() {
    let mut players =
        PlayersResource { player_data: vec![slot(CharacterType::Juggernaut, PlayerInput::Keyboard)] };
    let mut carousel = CharacterCarousel::new(0);
    for event in [
        ButtonActionEvent::CharacterSelectLeft(1),
        ButtonActionEvent::CharacterSelectRight(3),
        ButtonActionEvent::CharacterSelectReady(0),
        ButtonActionEvent::CharacterSelectJoin,
        ButtonActionEvent::Other,
    ] {
        assert_eq!(carousel.apply_button_event(event, &mut players), None);
    }
    assert_eq!(
        carousel.characters.iter().copied().collect::<Vec<_>>(),
        vec![CharacterType::Captain, CharacterType::Juggernaut]
    );
    assert_eq!(players.player_data[0], slot(CharacterType::Juggernaut, PlayerInput::Keyboard));
}

#[test]
fn carousel_of_an_empty_or_missing_slot_changes_no_player() {
    let mut players = PlayersResource { player_data: vec![None] };
    let mut first = CharacterCarousel::new(0);
    assert!(first
        .apply_button_event(ButtonActionEvent::CharacterSelectLeft(0), &mut players)
        .is_some());
    let mut far = CharacterCarousel::new(9);
    assert!(far
        .apply_button_event(ButtonActionEvent::CharacterSelectRight(9), &mut players)
        .is_some());
    assert_eq!(players.player_data, vec![None]);
}

#[test]
fn keyboard_joins_by_key() {
    let mut players = PlayersResource { player_data: Vec::new() };
    let mut stored = Interaction::Idle;
    let events = player_join(
        &mut players,
        &mut stored,
        Some(Interaction::Idle),
        4,
        Some(&vec![MenuAction::PauseGame, MenuAction::JoinKeyboard]),
        None,
    );
    assert_eq!(events, vec![PlayerJoinEvent { player_idx: 0, input: PlayerInput::Keyboard }]);
    assert_eq!(players.player_data, vec![slot(CharacterType::Captain, PlayerInput::Keyboard)]);
    assert_eq!(stored, Interaction::Idle);
}

#[test]
fn gamepad_joins_after_the_default_slots() {
    let mut players = PlayersResource::default();
    let mut stored = Interaction::Idle;
    let events = player_join(
        &mut players,
        &mut stored,
        Some(Interaction::Hovered),
        4,
        Some(&vec![MenuAction::JoinGamepad]),
        Some(6),
    );
    assert_eq!(events, vec![PlayerJoinEvent { player_idx: 4, input: PlayerInput::Gamepad(6) }]);
    assert_eq!(players.player_data.len(), 5);
    assert_eq!(players.player_data[4], slot(CharacterType::Captain, PlayerInput::Gamepad(6)));
    assert_eq!(stored, Interaction::Hovered);
}

#[test]
fn mouse_joins_when_let_go_over_the_button() {
    let mut players =
        PlayersResource { player_data: vec![slot(CharacterType::Juggernaut, PlayerInput::Gamepad(1))] };
    let mut stored = Interaction::Idle;
    let events = player_join(&mut players, &mut stored, Some(Interaction::Pressed), 4, None, None);
    assert!(events.is_empty());
    assert_eq!(stored, Interaction::Pressed);
    let events = player_join(&mut players, &mut stored, Some(Interaction::Hovered), 4, None, None);
    assert_eq!(events, vec![PlayerJoinEvent { player_idx: 1, input: PlayerInput::Keyboard }]);
    assert_eq!(stored, Interaction::Hovered);
    let events = player_join(&mut players, &mut stored, Some(Interaction::Hovered), 4, None, None);
    assert!(events.is_empty());
    assert_eq!(players.player_data.len(), 2);
}

#[test]
fn three_joins_in_one_frame_are_held_against_the_inputs_before() {
    let mut players = PlayersResource { player_data: Vec::new() };
    let mut stored = Interaction::Pressed;
    let events = player_join(
        &mut players,
        &mut stored,
        Some(Interaction::Hovered),
        1,
        Some(&vec![MenuAction::JoinGamepad, MenuAction::JoinKeyboard]),
        Some(2),
    );
    assert_eq!(
        events,
        vec![
            PlayerJoinEvent { player_idx: 0, input: PlayerInput::Keyboard },
            PlayerJoinEvent { player_idx: 1, input: PlayerInput::Gamepad(2) },
            PlayerJoinEvent { player_idx: 2, input: PlayerInput::Keyboard },
        ]
    );
    assert_eq!(
        players.get_used_inputs(),
        vec![PlayerInput::Keyboard, PlayerInput::Gamepad(2), PlayerInput::Keyboard]
    );
}

#[test]
fn nobody_joins_a_full_game_or_a_screen_without_the_button() {
    let taken = vec![
        slot(CharacterType::Captain, PlayerInput::Gamepad(0)),
        slot(CharacterType::Captain, PlayerInput::Gamepad(1)),
    ];
    let mut players = PlayersResource { player_data: taken.clone() };
    let mut stored = Interaction::Pressed;
    let released = vec![MenuAction::JoinKeyboard, MenuAction::JoinGamepad];
    let events =
        player_join(&mut players, &mut stored, Some(Interaction::Hovered), 2, Some(&released), Some(5));
    assert!(events.is_empty());
    assert_eq!(stored, Interaction::Pressed);
    let events = player_join(&mut players, &mut stored, None, 4, Some(&released), Some(5));
    assert!(events.is_empty());
    assert_eq!(stored, Interaction::Pressed);
    assert_eq!(players.player_data, taken);
}

#[test]
fn inputs_in_use_cannot_join_again() {
    let taken = vec![
        slot(CharacterType::Captain, PlayerInput::Gamepad(5)),
        slot(CharacterType::Captain, PlayerInput::Keyboard),
    ];
    let mut players = PlayersResource { player_data: taken.clone() };
    let mut stored = Interaction::Pressed;
    let released = vec![MenuAction::JoinKeyboard, MenuAction::JoinGamepad];
    let events =
        player_join(&mut players, &mut stored, Some(Interaction::Hovered), 4, Some(&released), Some(5));
    assert!(events.is_empty());
    assert_eq!(stored, Interaction::Hovered);
    assert_eq!(players.player_data, taken);
    let events =
        player_join(&mut players, &mut stored, Some(Interaction::Idle), 4, Some(&released), None);
    assert!(events.is_empty());
}

#[test]
fn lookups_over_inputs_and_actions() {
    let used = vec![PlayerInput::Gamepad(2), PlayerInput::Keyboard, PlayerInput::Keyboard];
    assert!(contains_input(&used, PlayerInput::Keyboard));
    assert!(contains_input(&used, PlayerInput::Gamepad(2)));
    assert!(!contains_input(&used, PlayerInput::Gamepad(1)));
    assert_eq!(keyboard_player(&used), Some(1));
    assert_eq!(keyboard_player(&vec![PlayerInput::Gamepad(0)]), None);
    assert!(uses_gamepad(&used, 0));
    assert!(!uses_gamepad(&used, 1));
    assert!(!uses_gamepad(&used, 3));
    assert!(contains_action(&vec![MenuAction::PauseGame], MenuAction::PauseGame));
    assert!(!contains_action(&vec![MenuAction::PauseGame], MenuAction::ExitPauseMenu));
}

#[test]
fn mouse_clicks_turn_the_keyboard_players_carousel() {
    let players = PlayersResource {
        player_data: vec![
            slot(CharacterType::Captain, PlayerInput::Gamepad(0)),
            None,
            slot(CharacterType::Captain, PlayerInput::Keyboard),
        ],
    };
    let mut right = [Interaction::Idle; 4];
    let mut left = [Interaction::Idle; 4];
    let pressed = vec![
        (ButtonActionEvent::CharacterSelectRight(1), Interaction::Pressed),
        (ButtonActionEvent::CharacterSelectLeft(1), Interaction::Hovered),
        (ButtonActionEvent::CharacterSelectRight(0), Interaction::Pressed),
        (ButtonActionEvent::CharacterSelectJoin, Interaction::Pressed),
    ];
    assert!(character_selection_mouse_click(&pressed, &mut right, &mut left, &players).is_empty());
    assert_eq!(right, [Interaction::Idle, Interaction::Pressed, Interaction::Idle, Interaction::Idle]);
    assert_eq!(left, [Interaction::Idle, Interaction::Hovered, Interaction::Idle, Interaction::Idle]);
    let let_go = vec![
        (ButtonActionEvent::CharacterSelectRight(1), Interaction::Hovered),
        (ButtonActionEvent::CharacterSelectLeft(1), Interaction::Hovered),
        (ButtonActionEvent::CharacterSelectRight(0), Interaction::Hovered),
    ];
    assert_eq!(
        character_selection_mouse_click(&let_go, &mut right, &mut left, &players),
        vec![ButtonActionEvent::CharacterSelectRight(1)]
    );
    assert_eq!(right, [Interaction::Idle, Interaction::Hovered, Interaction::Idle, Interaction::Idle]);
    assert!(character_selection_mouse_click(&let_go, &mut right, &mut left, &players).is_empty());
}

#[test]
fn one_frame_can_press_and_let_go_of_the_same_arrow() {
    let players = PlayersResource { player_data: vec![slot(CharacterType::Captain, PlayerInput::Keyboard)] };
    let mut right = [Interaction::Idle; 4];
    let mut left = [Interaction::Pressed; 4];
    let buttons = vec![
        (ButtonActionEvent::CharacterSelectRight(0), Interaction::Pressed),
        (ButtonActionEvent::CharacterSelectRight(0), Interaction::Hovered),
        (ButtonActionEvent::CharacterSelectLeft(0), Interaction::Hovered),
        (ButtonActionEvent::CharacterSelectLeft(0), Interaction::Hovered),
    ];
    assert_eq!(
        character_selection_mouse_click(&buttons, &mut right, &mut left, &players),
        vec![ButtonActionEvent::CharacterSelectRight(0), ButtonActionEvent::CharacterSelectLeft(0)]
    );
    assert_eq!(right[0], Interaction::Hovered);
    assert_eq!(left[0], Interaction::Hovered);
    assert_eq!(left[1], Interaction::Pressed);
}

#[test]
fn without_a_keyboard_player_the_mouse_turns_nothing() {
    let players = PlayersResource { player_data: vec![slot(CharacterType::Captain, PlayerInput::Gamepad(0))] };
    let mut right = [Interaction::Pressed; 4];
    let mut left = [Interaction::Pressed; 4];
    let buttons = vec![
        (ButtonActionEvent::CharacterSelectRight(0), Interaction::Hovered),
        (ButtonActionEvent::CharacterSelectLeft(0), Interaction::Hovered),
    ];
    assert!(character_selection_mouse_click(&buttons, &mut right, &mut left, &players).is_empty());
    assert_eq!(right, [Interaction::Pressed; 4]);
    assert_eq!(left, [Interaction::Pressed; 4]);
}

#[test]
fn each_device_turns_with_its_own_actions() {
    let players = PlayersResource {
        player_data: vec![
            slot(CharacterType::Captain, PlayerInput::Keyboard),
            slot(CharacterType::Captain, PlayerInput::Gamepad(3)),
        ],
    };
    let every_turn = vec![
        MenuAction::NavigateRightGamepad,
        MenuAction::NavigateLeftKeyboard,
        MenuAction::JoinKeyboard,
        MenuAction::NavigateLeftGamepad,
        MenuAction::NavigateRightKeyboard,
    ];
    let explorers = vec![(1u8, every_turn.clone()), (0u8, every_turn.clone()), (7u8, every_turn)];
    assert_eq!(
        character_selection_keyboard_gamepad(&explorers, &players),
        vec![
            ButtonActionEvent::CharacterSelectRight(1),
            ButtonActionEvent::CharacterSelectLeft(1),
            ButtonActionEvent::CharacterSelectLeft(0),
            ButtonActionEvent::CharacterSelectRight(0),
            ButtonActionEvent::CharacterSelectLeft(7),
            ButtonActionEvent::CharacterSelectRight(7),
        ]
    );
    assert!(character_selection_keyboard_gamepad(&Vec::new(), &players).is_empty());
}

#[test]
fn kills_are_listed_line_by_line() {
    assert_eq!(pprint_mob_kills_from_data(None), "No mobs killed");
    assert_eq!(pprint_mob_kills_from_data(Some(&Vec::new())), "");
    assert_eq!(
        pprint_mob_kills_from_data(Some(&vec![(EnemyMobType::StraferLeft, 12)])),
        "StraferLeft: 12"
    );
    assert_eq!(
        pprint_mob_kills_from_data(Some(&vec![
            (EnemyMobType::Pawn, 0),
            (EnemyMobType::MissileLauncher, 1047),
            (EnemyMobType::Shelly, 9),
        ])),
        "Pawn: 0\nMissileLauncher: 1047\nShelly: 9"
    );
}

#[test]
fn variant_names_are_written_as_in_the_source() {
    let names: Vec<&str> = [
        EnemyMobType::Pawn,
        EnemyMobType::Drone,
        EnemyMobType::StraferRight,
        EnemyMobType::StraferLeft,
        EnemyMobType::MissileLauncher,
        EnemyMobType::Missile,
        EnemyMobType::CrustlingRight,
        EnemyMobType::CrustlingLeft,
        EnemyMobType::Repeater,
        EnemyMobType::Shelly,
    ]
    .into_iter()
    .map(enemy_mob_variant_name)
    .collect();
    assert_eq!(
        names,
        vec![
            "Pawn",
            "Drone",
            "StraferRight",
            "StraferLeft",
            "MissileLauncher",
            "Missile",
            "CrustlingRight",
            "CrustlingLeft",
            "Repeater",
            "Shelly",
        ]
    );
}

#[test]
fn decimals_match_the_standard_formatting() {
    for n in [0usize, 7, 10, 99, 100, 1234567890, usize::MAX] {
        let mut text = String::from("n=");
        append_decimal(&mut text, n);
        assert_eq!(text, format!("n={}", n));
    }
}

#[test]
fn gate_interactions_pick_the_gradient() {
    assert_eq!(
        border_gradient_on_gate_interaction(&vec![
            DefenseInteraction::Heal(3),
            DefenseInteraction::Damage(10),
            DefenseInteraction::Damage(0),
        ]),
        vec![BorderGradientType::Defense, BorderGradientType::Warning, BorderGradientType::Warning]
    );
    assert!(border_gradient_on_gate_interaction(&Vec::new()).is_empty());
}

#[test]
fn gradient_starts_over_on_its_own_events_only() {
    let mut timer = Timer::new(Duration::from_millis(400), TimerMode::Once);
    timer.tick(Duration::from_millis(400));
    assert!(timer.is_finished());
    assert!(!border_gradient_start_system(
        BorderGradientType::Warning,
        &mut timer,
        &vec![BorderGradientType::Defense]
    ));
    assert!(timer.is_finished());
    assert_eq!(timer.elapsed(), Duration::from_millis(400));
    assert!(border_gradient_start_system(
        BorderGradientType::Warning,
        &mut timer,
        &vec![BorderGradientType::Defense, BorderGradientType::Warning, BorderGradientType::Warning]
    ));
    assert!(!timer.is_finished());
    assert_eq!(timer.elapsed(), Duration::ZERO);
    assert_eq!(timer.duration(), Duration::from_millis(400));
}

#[test]
fn pause_menu_opens_and_closes_on_its_actions() {
    assert_eq!(
        open_pause_menu_system(&vec![MenuAction::JoinKeyboard, MenuAction::PauseGame]),
        Some(PauseMenuChange { next_state: GameStates::Paused, physics_active: false })
    );
    assert_eq!(open_pause_menu_system(&vec![MenuAction::ExitPauseMenu]), None);
    assert_eq!(
        close_pause_menu_system(&vec![MenuAction::ExitPauseMenu]),
        Some(PauseMenuChange { next_state: GameStates::Playing, physics_active: true })
    );
    assert_eq!(close_pause_menu_system(&vec![MenuAction::PauseGame]), None);
    assert_eq!(close_pause_menu_system(&Vec::new()), None);
}

#[test]
fn opposite_turns_undo_each_other() {
    let start = vec![
        CharacterType::Juggernaut,
        CharacterType::Captain,
        CharacterType::Captain,
        CharacterType::Juggernaut,
        CharacterType::Captain,
    ];
    let mut carousel = CharacterCarousel { player_idx: 3, characters: start.clone().into() };
    carousel.rotate_left();
    carousel.rotate_right();
    assert_eq!(carousel.characters.iter().copied().collect::<Vec<_>>(), start);
    carousel.rotate_right();
    carousel.rotate_left();
    assert_eq!(carousel.characters.iter().copied().collect::<Vec<_>>(), start);
    let right_before = carousel.get_visible_characters()[2];
    carousel.rotate_left();
    assert_eq!(carousel.get_visible_characters()[1], right_before);
    assert_eq!(carousel.player_idx, 3);
}
