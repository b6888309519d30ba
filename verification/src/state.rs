//! The coarse game state and its transitions.

use vstd::prelude::*;

verus! {

/// Exactly one of these is active; only `Running` ticks the simulation.
#[derive(Clone, Copy, PartialEq, Eq, Structural, Debug, Hash)]
pub enum GameState {
    Init,
    Running,
    Ended,
}

impl Default for GameState {
    fn default() -> (s: GameState)
        ensures
            s == GameState::Init,
    {
        GameState::Init
    }
}

/// The single state transition of one tick boundary: `Init` starts on the
/// start input, `Running` ends when the patient's health is exhausted, and
/// `Ended` returns to `Init` on the restart input. Nothing else moves the
/// state.
pub fn game_state_step(
    state: GameState,
    start_pressed: bool,
    restart_pressed: bool,
    health_exhausted: bool,
) -> (next: GameState)
    ensures
        next == match state {
            GameState::Init => if start_pressed {
                GameState::Running
            } else {
                GameState::Init
            },
            GameState::Running => if health_exhausted {
                GameState::Ended
            } else {
                GameState::Running
            },
            GameState::Ended => if restart_pressed {
                GameState::Init
            } else {
                GameState::Ended
            },
        },
{
    match state {
        GameState::Init => if start_pressed {
            GameState::Running
        } else {
            GameState::Init
        },
        GameState::Running => if health_exhausted {
            GameState::Ended
        } else {
            GameState::Running
        },
        GameState::Ended => if restart_pressed {
            GameState::Init
        } else {
            GameState::Ended
        },
    }
}

} // verus!
