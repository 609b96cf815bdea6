//! The character selection screen, where each player joins with an input device
//! and browses a carousel of characters.

use crate::character::CharacterType;
use crate::input::{contains_action, MenuAction};
use crate::player::{used_inputs, PlayerData, PlayerInput, PlayersResource};
use std::collections::VecDeque;
use vstd::prelude::*;

verus! {

/// What the pointer does to a button.
#[derive(Debug, PartialEq, Eq, Clone, Copy, Structural)]
pub enum Interaction {
    /// The button is held down.
    Pressed,
    /// The pointer rests on the button.
    Hovered,
    /// The pointer is elsewhere.
    Idle,
}

/// What a button of the screen stands for, and what is announced when it is
/// released. The number is the index of the player that the button belongs to.
#[derive(Debug, PartialEq, Eq, Clone, Copy, Structural)]
pub enum ButtonActionEvent {
    CharacterSelectReady(u8),
    CharacterSelectJoin,
    CharacterSelectRight(u8),
    CharacterSelectLeft(u8),
    /// A button of another screen.
    Other,
}

/// Announces that a player has joined.
#[derive(Debug, PartialEq, Eq, Clone, Copy, Structural)]
pub struct PlayerJoinEvent {
    pub player_idx: u8,
    pub input: PlayerInput,
}

/// The characters of one player's carousel. The one in front is shown in the
/// middle, the last one to its left, the second one to its right.
#[derive(Debug, Clone)]
pub struct CharacterCarousel {
    pub player_idx: u8,
    pub characters: VecDeque<CharacterType>,
}

/// The characters after a turn to the right: the last one comes to the front.
pub open spec fn rotated_right(characters: Seq<CharacterType>) -> Seq<CharacterType> {
    if characters.len() == 0 {
        characters
    } else {
        seq![characters.last()] + characters.drop_last()
    }
}

/// The characters after a turn to the left: the first one goes to the back.
pub open spec fn rotated_left(characters: Seq<CharacterType>) -> Seq<CharacterType> {
    if characters.len() == 0 {
        characters
    } else {
        characters.drop_first().push(characters.first())
    }
}

/// The three characters on show, from left to right: the last, the first and the
/// second. With fewer than two characters to choose from, the default character
/// is shown three times.
pub open spec fn visible_characters(characters: Seq<CharacterType>) -> Seq<CharacterType> {
    if characters.len() >= 2 {
        seq![characters.last(), characters[0], characters[1]]
    } else {
        seq![CharacterType::Captain, CharacterType::Captain, CharacterType::Captain]
    }
}

/// Whether the event is a turn of the carousel of the player `player_idx`.
pub open spec fn turns_carousel(event: ButtonActionEvent, player_idx: u8) -> bool {
    event == ButtonActionEvent::CharacterSelectLeft(player_idx) || event
        == ButtonActionEvent::CharacterSelectRight(player_idx)
}

/// The characters of the carousel of the player `player_idx` after the event.
pub open spec fn characters_after_event(
    characters: Seq<CharacterType>,
    player_idx: u8,
    event: ButtonActionEvent,
) -> Seq<CharacterType> {
    if event == ButtonActionEvent::CharacterSelectRight(player_idx) {
        rotated_right(characters)
    } else if event == ButtonActionEvent::CharacterSelectLeft(player_idx) {
        rotated_left(characters)
    } else {
        characters
    }
}

/// The slots with the character of the slot `index` replaced, if that slot
/// exists and is taken.
pub open spec fn with_character(
    slots: Seq<Option<PlayerData>>,
    index: int,
    character: CharacterType,
) -> Seq<Option<PlayerData>> {
    if 0 <= index < slots.len() && slots[index].is_some() {
        slots.update(index, Some(PlayerData { character, input: slots[index].unwrap().input }))
    } else {
        slots
    }
}

/// A turn to the left undoes a turn to the right, and a turn to the right undoes
/// a turn to the left.
pub proof fn lemma_turns_undo_each_other(characters: Seq<CharacterType>)
    ensures
        rotated_left(rotated_right(characters)) == characters,
        rotated_right(rotated_left(characters)) == characters,
        rotated_left(characters).len() == characters.len(),
        rotated_right(characters).len() == characters.len(),
{
}

/// With two characters or more, a turn to the left brings the character on the
/// right into the middle, and a turn to the right the one on the left.
pub proof fn lemma_turn_moves_the_view(characters: Seq<CharacterType>)
    requires
        characters.len() >= 2,
    ensures
        visible_characters(rotated_left(characters))[1] == visible_characters(characters)[2],
        visible_characters(rotated_right(characters))[1] == visible_characters(characters)[0],
        visible_characters(characters).len() == 3,
{
}

impl CharacterCarousel {
    /// A carousel of every character for the player `player_idx`.
    pub fn new(player_idx: u8) -> (carousel: Self)
        ensures
            carousel.player_idx == player_idx,
            carousel.characters@ == CharacterType::all(),
    {
        CharacterCarousel { player_idx, characters: CharacterType::to_vec() }
    }

    /// Turns the carousel to the right: the last character comes to the front.
    pub fn rotate_right(&mut self)
        ensures
            final(self).player_idx == old(self).player_idx,
            final(self).characters@ == rotated_right(old(self).characters@),
    {
        if let Some(last_element) = self.characters.pop_back() {
            self.characters.push_front(last_element);
        }
    }

    /// Turns the carousel to the left: the first character goes to the back.
    pub fn rotate_left(&mut self)
        ensures
            final(self).player_idx == old(self).player_idx,
            final(self).characters@ == rotated_left(old(self).characters@),
    {
        if let Some(first_element) = self.characters.pop_front() {
            self.characters.push_back(first_element);
        }
    }

    /// The three characters on show, from left to right.
    pub fn get_visible_characters(&self) -> (visible: [CharacterType; 3])
        ensures
            visible@ == visible_characters(self.characters@),
    {
        let len = self.characters.len();
        let visible = if len >= 2 {
            [self.characters[len - 1], self.characters[0], self.characters[1]]
        } else {
            [CharacterType::default(), CharacterType::default(), CharacterType::default()]
        };
        visible
    }

    /// Handles one button event. If it is a turn of this carousel, the carousel
    /// turns, the character that is then in the middle becomes the character of
    /// the carousel's player, and the three characters on show are returned.
    pub fn apply_button_event(
        &mut self,
        event: ButtonActionEvent,
        players_resource: &mut PlayersResource,
    ) -> (shown: Option<[CharacterType; 3]>)
        ensures
            final(self).player_idx == old(self).player_idx,
            final(self).characters@ == characters_after_event(
                old(self).characters@,
                old(self).player_idx,
                event,
            ),
            shown.is_some() == turns_carousel(event, old(self).player_idx),
            shown.is_some() ==> shown.unwrap()@ == visible_characters(final(self).characters@),
            final(players_resource).player_data@ == (if turns_carousel(
                event,
                old(self).player_idx,
            ) {
                with_character(
                    old(players_resource).player_data@,
                    old(self).player_idx as int,
                    visible_characters(final(self).characters@)[1],
                )
            } else {
                old(players_resource).player_data@
            }),
    {
        let turned = match event {
            ButtonActionEvent::CharacterSelectRight(i) => {
                if i == self.player_idx {
                    self.rotate_right();
                    true
                } else {
                    false
                }
            },
            ButtonActionEvent::CharacterSelectLeft(i) => {
                if i == self.player_idx {
                    self.rotate_left();
                    true
                } else {
                    false
                }
            },
            _ => false,
        };
        if turned {
            let visible = self.get_visible_characters();
            let index = self.player_idx as usize;
            if index < players_resource.player_data.len() {
                match players_resource.player_data[index] {
                    Some(player_data) => {
                        players_resource.player_data.set(
                            index,
                            Some(PlayerData { character: visible[1], input: player_data.input }),
                        );
                    },
                    None => {},
                }
            }
            Some(visible)
        } else {
            None
        }
    }
}

/// Tells whether `input` is one of `inputs`.
pub fn contains_input(inputs: &Vec<PlayerInput>, input: PlayerInput) -> (found: bool)
    ensures
        found == inputs@.contains(input),
{
    let mut i: usize = 0;
    while i < inputs.len()
        invariant
            i <= inputs.len(),
            forall|j: int| 0 <= j < i ==> inputs@[j] != input,
        decreases inputs.len() - i,
    {
        if inputs[i] == input {
            return true;
        }
        i += 1;
    }
    false
}

/// Whether a player joins with the keyboard by a key: the join key was released
/// and no player uses the keyboard yet. `released` is `None` when the menu has
/// no single explorer to read the keys from.
pub open spec fn joins_by_key(used: Seq<PlayerInput>, released: Option<Seq<MenuAction>>) -> bool {
    released.is_some() && released.unwrap().contains(MenuAction::JoinKeyboard) && !used.contains(
        PlayerInput::Keyboard,
    )
}

/// Whether a player joins with the gamepad `gamepad`: a button of it was seen,
/// the join button was released and no player uses that gamepad yet.
pub open spec fn joins_by_gamepad(
    used: Seq<PlayerInput>,
    released: Option<Seq<MenuAction>>,
    gamepad: Option<usize>,
) -> bool {
    released.is_some() && gamepad.is_some() && released.unwrap().contains(MenuAction::JoinGamepad)
        && !used.contains(PlayerInput::Gamepad(gamepad.unwrap()))
}

/// Whether a player joins with the keyboard by the mouse: the mouse button was
/// let go over the join button, and no player uses the keyboard yet.
pub open spec fn joins_by_mouse(
    used: Seq<PlayerInput>,
    button: Interaction,
    stored: Interaction,
) -> bool {
    button == Interaction::Hovered && stored == Interaction::Pressed && !used.contains(
        PlayerInput::Keyboard,
    )
}

/// The inputs of the players that join in one frame, in their order: by key, by
/// gamepad, by mouse. Each is held against the inputs in use before the frame.
pub open spec fn joining_inputs(
    used: Seq<PlayerInput>,
    released: Option<Seq<MenuAction>>,
    gamepad: Option<usize>,
    button: Interaction,
    stored: Interaction,
) -> Seq<PlayerInput> {
    let by_key = if joins_by_key(used, released) {
        seq![PlayerInput::Keyboard]
    } else {
        Seq::empty()
    };
    let by_gamepad = if joins_by_gamepad(used, released, gamepad) {
        seq![PlayerInput::Gamepad(gamepad.unwrap())]
    } else {
        Seq::empty()
    };
    let by_mouse = if joins_by_mouse(used, button, stored) {
        seq![PlayerInput::Keyboard]
    } else {
        Seq::empty()
    };
    by_key + by_gamepad + by_mouse
}

/// Whether players can join in this frame: the join button is on the screen and
/// fewer than `max_players` inputs are in use.
pub open spec fn joining_open(
    used: Seq<PlayerInput>,
    join_button: Option<Interaction>,
    max_players: usize,
) -> bool {
    join_button.is_some() && used.len() < max_players
}

/// The slot of a player who has just joined with `input`.
pub open spec fn joined_slot(input: PlayerInput) -> Option<PlayerData> {
    Some(PlayerData { character: CharacterType::Captain, input })
}

/// Adds a player with the default character and announces it.
fn push_player(
    players_resource: &mut PlayersResource,
    events: &mut Vec<PlayerJoinEvent>,
    input: PlayerInput,
)
    requires
        old(players_resource).player_data.len() < 255,
    ensures
        final(players_resource).player_data@ == old(players_resource).player_data@.push(
            joined_slot(input),
        ),
        final(events)@ == old(events)@.push(
            PlayerJoinEvent { player_idx: old(players_resource).player_data.len() as u8, input },
        ),
{
    players_resource.player_data.push(
        Some(PlayerData { character: CharacterType::Captain, input }),
    );
    let player_idx = (players_resource.player_data.len() - 1) as u8;
    events.push(PlayerJoinEvent { player_idx, input });
}

/// Lets players join the game in one frame of the character selection screen.
///
/// `join_button` is what the pointer does to the join button, if the button is on
/// the screen. `mouse_interaction` is what it did in the frame before.
/// `released_actions` are the menu actions released in this frame, if the menu
/// has a single explorer. `gamepad` is the gamepad of the button event that was
/// read in this frame, if any.
///
/// Each player that joins is added to the slots with the default character, and
/// announced with the index of the new slot.
pub fn player_join(
    players_resource: &mut PlayersResource,
    mouse_interaction: &mut Interaction,
    join_button: Option<Interaction>,
    max_players: usize,
    released_actions: Option<&Vec<MenuAction>>,
    gamepad: Option<usize>,
) -> (events: Vec<PlayerJoinEvent>)
    requires
        old(players_resource).player_data.len() <= 252,
    ensures
        ({
            let slots = old(players_resource).player_data@;
            let used = used_inputs(slots);
            let released = match released_actions {
                Some(actions) => Some(actions@),
                None => None,
            };
            let joins = if joining_open(used, join_button, max_players) {
                joining_inputs(
                    used,
                    released,
                    gamepad,
                    join_button.unwrap(),
                    *old(mouse_interaction),
                )
            } else {
                Seq::empty()
            };
            &&& final(players_resource).player_data@ == slots + joins.map_values(
                |input: PlayerInput| joined_slot(input),
            )
            &&& events@ == Seq::new(
                joins.len(),
                |k: int| PlayerJoinEvent { player_idx: (slots.len() + k) as u8, input: joins[k] },
            )
            &&& *final(mouse_interaction) == if joining_open(used, join_button, max_players) {
                join_button.unwrap()
            } else {
                *old(mouse_interaction)
            }
        }),
{
    let mut events: Vec<PlayerJoinEvent> = Vec::new();
    if let Some(button) = join_button {
        let used = players_resource.get_used_inputs();
        if used.len() < max_players {
            let keyboard_free = !contains_input(&used, PlayerInput::Keyboard);
            if let Some(actions) = released_actions {
                if keyboard_free && contains_action(actions, MenuAction::JoinKeyboard) {
                    push_player(players_resource, &mut events, PlayerInput::Keyboard);
                }
                if let Some(id) = gamepad {
                    if contains_action(actions, MenuAction::JoinGamepad) && !contains_input(
                        &used,
                        PlayerInput::Gamepad(id),
                    ) {
                        push_player(players_resource, &mut events, PlayerInput::Gamepad(id));
                    }
                }
            }
            let released_over_button = match button {
                Interaction::Hovered => match *mouse_interaction {
                    Interaction::Pressed => true,
                    _ => false,
                },
                _ => false,
            };
            if released_over_button && keyboard_free {
                push_player(players_resource, &mut events, PlayerInput::Keyboard);
            }
            *mouse_interaction = button;
        }
    }
    events
}

/// Whether `k` is the position, among the inputs in use, of the first player who
/// uses the keyboard.
pub open spec fn is_keyboard_player(used: Seq<PlayerInput>, k: int) -> bool {
    &&& 0 <= k < used.len()
    &&& used[k] == PlayerInput::Keyboard
    &&& forall|j: int| 0 <= j < k ==> used[j] != PlayerInput::Keyboard
}

/// Finds the first player who uses the keyboard.
pub fn keyboard_player(used: &Vec<PlayerInput>) -> (found: Option<usize>)
    ensures
        match found {
            Some(k) => is_keyboard_player(used@, k as int),
            None => !used@.contains(PlayerInput::Keyboard),
        },
{
    let mut i: usize = 0;
    while i < used.len()
        invariant
            i <= used.len(),
            forall|j: int| 0 <= j < i ==> used@[j] != PlayerInput::Keyboard,
        decreases used.len() - i,
    {
        if used[i] == PlayerInput::Keyboard {
            return Some(i);
        }
        i += 1;
    }
    None
}

/// What the pointer did, in the frame before, to the right and left arrows of
/// each of the four carousels.
pub struct ClickMemory {
    pub right: Seq<Interaction>,
    pub left: Seq<Interaction>,
}

/// Whether the mouse button was let go over a button: the pointer rests on it
/// now and held it down before.
pub open spec fn released_over(now: Interaction, before: Interaction) -> bool {
    now == Interaction::Hovered && before == Interaction::Pressed
}

/// The memory after one button was looked at: an arrow of the player `player`
/// is remembered with what the pointer does to it now.
pub open spec fn memory_after_button(
    memory: ClickMemory,
    button: (ButtonActionEvent, Interaction),
    player: u8,
) -> ClickMemory {
    if button.0 == ButtonActionEvent::CharacterSelectRight(player) {
        ClickMemory { right: memory.right.update(player as int, button.1), ..memory }
    } else if button.0 == ButtonActionEvent::CharacterSelectLeft(player) {
        ClickMemory { left: memory.left.update(player as int, button.1), ..memory }
    } else {
        memory
    }
}

/// Whether looking at one button finds that an arrow of the player `player` was
/// clicked.
pub open spec fn button_clicked(
    memory: ClickMemory,
    button: (ButtonActionEvent, Interaction),
    player: u8,
) -> bool {
    ||| button.0 == ButtonActionEvent::CharacterSelectRight(player) && released_over(
        button.1,
        memory.right[player as int],
    )
    ||| button.0 == ButtonActionEvent::CharacterSelectLeft(player) && released_over(
        button.1,
        memory.left[player as int],
    )
}

/// The memory after the buttons were looked at in order.
pub open spec fn memory_after_buttons(
    memory: ClickMemory,
    buttons: Seq<(ButtonActionEvent, Interaction)>,
    player: u8,
) -> ClickMemory
    decreases buttons.len(),
{
    if buttons.len() == 0 {
        memory
    } else {
        memory_after_button(
            memory_after_buttons(memory, buttons.drop_last(), player),
            buttons.last(),
            player,
        )
    }
}

/// The arrows of the player `player` that were clicked, as the buttons were
/// looked at in order.
pub open spec fn click_events(
    memory: ClickMemory,
    buttons: Seq<(ButtonActionEvent, Interaction)>,
    player: u8,
) -> Seq<ButtonActionEvent>
    decreases buttons.len(),
{
    if buttons.len() == 0 {
        Seq::empty()
    } else {
        let earlier = click_events(memory, buttons.drop_last(), player);
        if button_clicked(
            memory_after_buttons(memory, buttons.drop_last(), player),
            buttons.last(),
            player,
        ) {
            earlier.push(buttons.last().0)
        } else {
            earlier
        }
    }
}

/// Finds the clicks on the arrows of the carousel of the player who uses the
/// keyboard, who is the one who has the mouse.
///
/// `buttons` are the buttons on the screen with what the pointer does to each.
/// `stored_right` and `stored_left` remember what it did to the arrows in the
/// frame before. An arrow counts as clicked when the pointer rests on it after
/// holding it down. Without a keyboard player nothing is clicked or remembered.
///
/// The memory has room for four players: the keyboard player must be one of the
/// first four.
pub fn character_selection_mouse_click(
    buttons: &Vec<(ButtonActionEvent, Interaction)>,
    stored_right: &mut [Interaction; 4],
    stored_left: &mut [Interaction; 4],
    players_resource: &PlayersResource,
) -> (events: Vec<ButtonActionEvent>)
    requires
        forall|k: int|
            is_keyboard_player(used_inputs(players_resource.player_data@), k) ==> k < 4,
    ensures
        ({
            let used = used_inputs(players_resource.player_data@);
            let memory = ClickMemory { right: old(stored_right)@, left: old(stored_left)@ };
            &&& forall|k: int|
                is_keyboard_player(used, k) ==> {
                    &&& events@ == click_events(memory, buttons@, k as u8)
                    &&& final(stored_right)@ == memory_after_buttons(memory, buttons@, k as u8).right
                    &&& final(stored_left)@ == memory_after_buttons(memory, buttons@, k as u8).left
                }
            &&& !used.contains(PlayerInput::Keyboard) ==> {
                &&& events@ == Seq::<ButtonActionEvent>::empty()
                &&& final(stored_right)@ == old(stored_right)@
                &&& final(stored_left)@ == old(stored_left)@
            }
        }),
{
    let mut events: Vec<ButtonActionEvent> = Vec::new();
    let used = players_resource.get_used_inputs();
    if let Some(position) = keyboard_player(&used) {
        let ghost memory = ClickMemory { right: stored_right@, left: stored_left@ };
        let keyboard_idx = position as u8;
        let mut i: usize = 0;
        while i < buttons.len()
            invariant
                i <= buttons.len(),
                position < 4,
                keyboard_idx == position,
                events@ == click_events(memory, buttons@.take(i as int), keyboard_idx),
                stored_right@ == memory_after_buttons(
                    memory,
                    buttons@.take(i as int),
                    keyboard_idx,
                ).right,
                stored_left@ == memory_after_buttons(
                    memory,
                    buttons@.take(i as int),
                    keyboard_idx,
                ).left,
            decreases buttons.len() - i,
        {
            proof {
                assert(buttons@.take(i + 1).drop_last() =~= buttons@.take(i as int));
            }
            let (button_action, mouse_interaction) = buttons[i];
            match button_action {
                ButtonActionEvent::CharacterSelectRight(idx) => {
                    if idx == keyboard_idx {
                        let released = match mouse_interaction {
                            Interaction::Hovered => match stored_right[position] {
                                Interaction::Pressed => true,
                                _ => false,
                            },
                            _ => false,
                        };
                        stored_right[position] = mouse_interaction;
                        if released {
                            events.push(button_action);
                        }
                    }
                },
                ButtonActionEvent::CharacterSelectLeft(idx) => {
                    if idx == keyboard_idx {
                        let released = match mouse_interaction {
                            Interaction::Hovered => match stored_left[position] {
                                Interaction::Pressed => true,
                                _ => false,
                            },
                            _ => false,
                        };
                        stored_left[position] = mouse_interaction;
                        if released {
                            events.push(button_action);
                        }
                    }
                },
                _ => {},
            }
            i += 1;
        }
        proof {
            assert(buttons@.take(i as int) =~= buttons@);
        }
    }
    events
}

/// Whether the player `player_idx` uses a gamepad: a gamepad stands at that
/// position among the inputs in use. Positions are counted in eight bits.
pub open spec fn is_gamepad_player(used: Seq<PlayerInput>, player_idx: u8) -> bool {
    exists|p: int|
        0 <= p < used.len() && (#[trigger] used[p]) != PlayerInput::Keyboard && p % 256
            == player_idx
}

/// Tells whether the player `player_idx` uses a gamepad.
pub fn uses_gamepad(used: &Vec<PlayerInput>, player_idx: u8) -> (found: bool)
    ensures
        found == is_gamepad_player(used@, player_idx),
{
    let mut i: usize = 0;
    while i < used.len()
        invariant
            i <= used.len(),
            forall|p: int|
                0 <= p < i ==> !((#[trigger] used@[p]) != PlayerInput::Keyboard && p % 256
                    == player_idx),
        decreases used.len() - i,
    {
        let at_position = i % 256 == player_idx as usize;
        match used[i] {
            PlayerInput::Gamepad(_) => {
                if at_position {
                    return true;
                }
            },
            PlayerInput::Keyboard => {},
        }
        i += 1;
    }
    false
}

/// The turn of a carousel that a released menu action asks for. A player with a
/// gamepad turns the carousel with the gamepad's actions, any other player with
/// the keyboard's.
pub open spec fn navigation_event(
    action: MenuAction,
    player_idx: u8,
    gamepad: bool,
) -> Option<ButtonActionEvent> {
    if gamepad {
        match action {
            MenuAction::NavigateLeftGamepad => Some(
                ButtonActionEvent::CharacterSelectLeft(player_idx),
            ),
            MenuAction::NavigateRightGamepad => Some(
                ButtonActionEvent::CharacterSelectRight(player_idx),
            ),
            _ => None,
        }
    } else {
        match action {
            MenuAction::NavigateLeftKeyboard => Some(
                ButtonActionEvent::CharacterSelectLeft(player_idx),
            ),
            MenuAction::NavigateRightKeyboard => Some(
                ButtonActionEvent::CharacterSelectRight(player_idx),
            ),
            _ => None,
        }
    }
}

/// The turns that one player's released actions ask for, in the order of the
/// actions.
pub open spec fn explorer_events(
    released: Seq<MenuAction>,
    player_idx: u8,
    gamepad: bool,
) -> Seq<ButtonActionEvent> {
    released.filter_map(|action: MenuAction| navigation_event(action, player_idx, gamepad))
}

/// The turns that the players' released actions ask for, player by player.
pub open spec fn navigation_events(
    explorers: Seq<(u8, Vec<MenuAction>)>,
    used: Seq<PlayerInput>,
) -> Seq<ButtonActionEvent>
    decreases explorers.len(),
{
    if explorers.len() == 0 {
        Seq::empty()
    } else {
        let (player_idx, released) = explorers.last();
        navigation_events(explorers.drop_last(), used) + explorer_events(
            released@,
            player_idx,
            is_gamepad_player(used, player_idx),
        )
    }
}

/// Turns the carousels by keyboard and gamepad.
///
/// `explorers` holds, for each player who explores the menu, the player's index
/// and the menu actions released in this frame. Each release of a navigation
/// action of the player's own device asks for a turn of that player's carousel.
pub fn character_selection_keyboard_gamepad(
    explorers: &Vec<(u8, Vec<MenuAction>)>,
    players_resource: &PlayersResource,
) -> (events: Vec<ButtonActionEvent>)
    ensures
        events@ == navigation_events(explorers@, used_inputs(players_resource.player_data@)),
{
    let mut events: Vec<ButtonActionEvent> = Vec::new();
    let used = players_resource.get_used_inputs();
    let mut i: usize = 0;
    while i < explorers.len()
        invariant
            i <= explorers.len(),
            used@ == used_inputs(players_resource.player_data@),
            events@ == navigation_events(explorers@.take(i as int), used@),
        decreases explorers.len() - i,
    {
        proof {
            assert(explorers@.take(i + 1).drop_last() =~= explorers@.take(i as int));
        }
        let player_idx = explorers[i].0;
        let released = &explorers[i].1;
        let gamepad = uses_gamepad(&used, player_idx);
        let ghost before = events@;
        let mut j: usize = 0;
        while j < released.len()
            invariant
                j <= released.len(),
                events@ == before + explorer_events(released@.take(j as int), player_idx, gamepad),
            decreases released.len() - j,
        {
            proof {
                assert(released@.take(j + 1).drop_last() =~= released@.take(j as int));
            }
            let action = released[j];
            if gamepad {
                match action {
                    MenuAction::NavigateLeftGamepad => {
                        events.push(ButtonActionEvent::CharacterSelectLeft(player_idx));
                    },
                    MenuAction::NavigateRightGamepad => {
                        events.push(ButtonActionEvent::CharacterSelectRight(player_idx));
                    },
                    _ => {},
                }
            } else {
                match action {
                    MenuAction::NavigateLeftKeyboard => {
                        events.push(ButtonActionEvent::CharacterSelectLeft(player_idx));
                    },
                    MenuAction::NavigateRightKeyboard => {
                        events.push(ButtonActionEvent::CharacterSelectRight(player_idx));
                    },
                    _ => {},
                }
            }
            j += 1;
        }
        proof {
            assert(released@.take(j as int) =~= released@);
        }
        i += 1;
    }
    proof {
        assert(explorers@.take(i as int) =~= explorers@);
    }
    events
}

} // verus!
