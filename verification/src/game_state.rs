//! Whether the game runs or is paused.

use vstd::prelude::*;

verus! {

/// The two states of play.
#[derive(Debug, Clone, Copy, Eq, PartialEq, Hash, Structural)]
pub enum GameState {
    Playing,
    Paused,
}

impl Default for GameState {
    /// A game starts out playing.
    fn default() -> (state: Self)
        ensures
            state == GameState::Playing,
    {
        GameState::Playing
    }
}

impl GameState {
    /// The other state.
    pub open spec fn other(self) -> GameState {
        match self {
            GameState::Playing => GameState::Paused,
            GameState::Paused => GameState::Playing,
        }
    }

    /// The state after the pause key was pressed: the other one.
    pub fn toggled(self) -> (next: Self)
        ensures
            next == self.other(),
    {
        match self {
            GameState::Playing => GameState::Paused,
            GameState::Paused => GameState::Playing,
        }
    }

    /// Pausing twice is playing on.
    pub proof fn law_toggle_twice(self)
        ensures
            self.other().other() == self,
            self.other() != self,
    {
    }
}

} // verus!
