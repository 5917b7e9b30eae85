use vstd::prelude::*;

verus! {

/// Which screen the game is on.
#[derive(Debug, Clone, Copy, PartialEq, Eq, Structural)]
pub enum GameState {
    /// The main menu screen.
    MainMenu,
    /// Actively playing the game.
    Playing,
    /// The game is paused (pause menu shown).
    Paused,
    /// The settings menu, reachable from the main menu or the pause menu.
    Settings,
}

impl Default for GameState {
    /// The game starts on the main menu.
    fn default() -> (r: Self)
        ensures
            r == GameState::MainMenu,
    {
        GameState::MainMenu
    }
}

/// Where the settings menu was opened from, to return to the right screen.
#[derive(Debug, Clone, Copy, PartialEq, Eq, Structural)]
pub enum PreviousState {
    MainMenu,
    Paused,
}

} // verus!
