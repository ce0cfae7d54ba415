use vstd::prelude::*;

use crate::game::{initial_game, Game};
use crate::input::{passes, Input};
use crate::start_screen::{initial_start, StartScreen};
use crate::transition::Transition;

verus! {

/// The screen the program shows.
pub enum Screen {
    Start(StartScreen),
    Playing(Game),
    /// A finished game, kept on display; `true` when it was won.
    GameOver(Game, bool),
    Empty,
}

/// The screen that follows a transition: a new game starts at level 1 with no
/// points; a game that ends is kept for display; a game-over request when no
/// game is being played leaves nothing on screen.
pub fn next_screen(screen: Screen, t: Transition) -> (r: Screen)
    ensures
        match t {
            Transition::Stay => r == screen,
            Transition::NewGame => r matches Screen::Playing(g) && g@ == initial_game(),
            Transition::ToStart => r matches Screen::Start(s) && s@ == initial_start(),
            Transition::GameOver(win) => match screen {
                Screen::Playing(g) => r == Screen::GameOver(g, win),
                _ => r is Empty,
            },
        },
{
    match t {
        Transition::Stay => screen,
        Transition::NewGame => Screen::Playing(Game::new()),
        Transition::ToStart => Screen::Start(StartScreen::new()),
        Transition::GameOver(win) => match screen {
            Screen::Playing(game) => Screen::GameOver(game, win),
            _ => Screen::Empty,
        },
    }
}

/// On the game-over screen any fresh key press or touch leads back to the
/// start screen, unless input is swallowed.
pub fn after_game_over(i: &Input, key_pressed_or_touch: bool) -> (r: Transition)
    ensures
        r == (if passes(i.swallow, key_pressed_or_touch) {
            Transition::ToStart
        } else {
            Transition::Stay
        }),
{
    if i.any_press(key_pressed_or_touch) {
        Transition::ToStart
    } else {
        Transition::Stay
    }
}

} // verus!
