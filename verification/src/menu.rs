//! The title menu: a Start button and a Quit button, chosen with the arrow
//! keys and confirmed with Enter.

use vstd::prelude::*;

verus! {

/// Title card of the Start button when it is selected.
pub const START_SELECTED: usize = 1;
/// Title card of the Start button when it is not selected.
pub const START_IDLE: usize = 2;
/// Title card of the Quit button when it is selected.
pub const QUIT_SELECTED: usize = 3;
/// Title card of the Quit button when it is not selected.
pub const QUIT_IDLE: usize = 4;

/// What Enter does on the title menu.
#[derive(Clone, Copy, Debug, PartialEq, Eq, Structural)]
pub enum MenuChoice {
    /// Nothing: Enter was not pressed, or no button is selected.
    Stay,
    /// Start was selected: go to the controls screen.
    StartGame,
    /// Quit was selected: leave the program.
    Quit,
}

/// The menu shows one of three pairs of cards: nothing selected yet,
/// Start selected, or Quit selected.
pub open spec fn cursor_valid(start_card: usize, quit_card: usize) -> bool {
    ||| start_card == START_IDLE && quit_card == QUIT_IDLE
    ||| start_card == START_SELECTED && quit_card == QUIT_IDLE
    ||| start_card == START_IDLE && quit_card == QUIT_SELECTED
}

/// The cards after one frame of arrow keys: Left selects Start, otherwise
/// Right selects Quit, otherwise nothing changes.
pub open spec fn cursor_after(start_card: usize, quit_card: usize, left: bool, right: bool) -> (usize, usize) {
    if left {
        (START_SELECTED, QUIT_IDLE)
    } else if right {
        (START_IDLE, QUIT_SELECTED)
    } else {
        (start_card, quit_card)
    }
}

/// What Enter does with the given cards shown.
pub open spec fn menu_choice_of(start_card: usize, quit_card: usize, enter: bool) -> MenuChoice {
    if enter && start_card == START_SELECTED {
        MenuChoice::StartGame
    } else if enter && quit_card == QUIT_SELECTED {
        MenuChoice::Quit
    } else {
        MenuChoice::Stay
    }
}

/// Moves the menu selection for one frame of arrow keys (see `cursor_after`).
pub fn move_cursor(start_card: usize, quit_card: usize, left: bool, right: bool) -> (cards: (usize, usize))
    requires
        cursor_valid(start_card, quit_card),
    ensures
        cards == cursor_after(start_card, quit_card, left, right),
        cursor_valid(cards.0, cards.1),
        left ==> cards == (START_SELECTED, QUIT_IDLE),
        !left && right ==> cards == (START_IDLE, QUIT_SELECTED),
        !left && !right ==> cards == (start_card, quit_card),
{
    if left {
        (START_SELECTED, QUIT_IDLE)
    } else if right {
        (START_IDLE, QUIT_SELECTED)
    } else {
        (start_card, quit_card)
    }
}

/// Decides what Enter does on the menu (see `menu_choice_of`).
pub fn menu_choice(start_card: usize, quit_card: usize, enter: bool) -> (choice: MenuChoice)
    ensures
        choice == menu_choice_of(start_card, quit_card, enter),
        (choice == MenuChoice::StartGame) == (enter && start_card == START_SELECTED),
        (choice == MenuChoice::Quit) == (enter && start_card != START_SELECTED && quit_card
            == QUIT_SELECTED),
{
    if enter && start_card == START_SELECTED {
        MenuChoice::StartGame
    } else if enter && quit_card == QUIT_SELECTED {
        MenuChoice::Quit
    } else {
        MenuChoice::Stay
    }
}

} // verus!
