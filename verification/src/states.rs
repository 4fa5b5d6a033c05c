//! The round-level and application-level state machines.

use vstd::prelude::*;

verus! {

/// Which screen the application shows.
#[derive(Clone, Copy, PartialEq, Eq, Structural, Debug)]
pub enum AppState {
    MainMenu,
    InGame,
}

impl Default for AppState {
    fn default() -> (r: AppState)
        ensures
            r == AppState::MainMenu,
    {
        AppState::MainMenu
    }
}

/// The round state machine: gameplay systems run only while `Playing`.
#[derive(Clone, Copy, PartialEq, Eq, Structural, Debug)]
pub enum GameState {
    Paused,
    Playing,
    GameOver,
}

impl Default for GameState {
    fn default() -> (r: GameState)
        ensures
            r == GameState::GameOver,
    {
        GameState::GameOver
    }
}

} // verus!
