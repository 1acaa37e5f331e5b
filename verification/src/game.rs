//! The top-level mode the program runs in, and its transitions.

use vstd::prelude::*;

verus! {

/// The program's top-level mode.
#[derive(Clone, Copy, PartialEq, Eq, Structural, Debug)]
pub enum GameState {
    /// The start screen.
    MainMenu,
    /// A gameplay session runs.
    Gameplay,
    /// The program is shutting down; terminal.
    Quit,
}

/// A discrete top-level input signal.
#[derive(Clone, Copy, PartialEq, Eq, Structural, Debug)]
pub enum GameSignal {
    /// Start a gameplay session (honoured in the menu).
    Start,
    /// Leave gameplay for the menu (honoured during gameplay).
    Abandon,
    /// Shut the program down (honoured in the menu).
    Quit,
    /// No recognised signal this frame.
    Idle,
}

/// Where a signal takes the mode: the menu starts gameplay or quits,
/// gameplay can only be abandoned back to the menu, quitting is
/// terminal, and an unrecognised signal changes nothing.
pub open spec fn spec_transition(state: GameState, signal: GameSignal) -> GameState {
    match (state, signal) {
        (GameState::MainMenu, GameSignal::Start) => GameState::Gameplay,
        (GameState::MainMenu, GameSignal::Quit) => GameState::Quit,
        (GameState::Gameplay, GameSignal::Abandon) => GameState::MainMenu,
        _ => state,
    }
}

/// Applies one top-level signal to the mode.
pub fn transition(state: GameState, signal: GameSignal) -> (r: GameState)
    ensures
        r == spec_transition(state, signal),
        state == GameState::Quit ==> r == GameState::Quit,
{
    match (state, signal) {
        (GameState::MainMenu, GameSignal::Start) => GameState::Gameplay,
        (GameState::MainMenu, GameSignal::Quit) => GameState::Quit,
        (GameState::Gameplay, GameSignal::Abandon) => GameState::MainMenu,
        _ => state,
    }
}

} // verus!
