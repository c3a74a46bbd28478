//! The screens the game moves through.

use vstd::prelude::*;

verus! {

/// The stage the game is in.
#[derive(Clone, Copy, PartialEq, Eq, Structural, Hash, Debug)]
pub enum AppState {
    /// Main menu: choose the difficulty and start a round.
    Menu,
    /// A round is running.
    Playing,
    /// The round is paused.
    Paused,
    /// The death animation is playing.
    Dying,
    /// The round is over: the snake hit a wall or itself.
    GameOver,
    /// The round is won: the snake fills the board.
    Victory,
}

impl Default for AppState {
    fn default() -> (s: Self)
        ensures
            s == AppState::Menu,
    {
        AppState::Menu
    }
}

} // verus!
