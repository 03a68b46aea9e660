//! The game-phase state machine: exactly one phase holds at any time, and
//! `GameOver` absorbs when collision results are folded together.

use vstd::prelude::*;

verus! {

/// The exclusive game phases.
#[derive(Clone, Copy, Debug, PartialEq, Eq, Structural)]
pub enum GameState {
    Playing,
    Paused,
    GameOver,
    Countdown,
}

impl GameState {
    /// Whether the simulation is running.
    pub fn is_playing(self) -> (r: bool)
        ensures
            r == (self == GameState::Playing),
    {
        match self {
            GameState::Playing => true,
            _ => false,
        }
    }

    /// Whether the game waits for a first input or a manual unpause.
    pub fn is_paused(self) -> (r: bool)
        ensures
            r == (self == GameState::Paused),
    {
        match self {
            GameState::Paused => true,
            _ => false,
        }
    }

    /// Whether the terminal phase has been reached.
    pub fn is_gameover(self) -> (r: bool)
        ensures
            r == (self == GameState::GameOver),
    {
        match self {
            GameState::GameOver => true,
            _ => false,
        }
    }

    /// Whether the timed entry into `Playing` is counting down.
    pub fn is_countdown(self) -> (r: bool)
        ensures
            r == (self == GameState::Countdown),
    {
        match self {
            GameState::Countdown => true,
            _ => false,
        }
    }

    /// Manual pause toggle: `Paused` resumes to `Playing`, any other phase
    /// pauses.
    pub fn toggle_pause(&mut self)
        ensures
            *final(self) == (if *old(self) == GameState::Paused {
                GameState::Playing
            } else {
                GameState::Paused
            }),
    {
        if self.is_paused() {
            *self = GameState::Playing;
        } else {
            *self = GameState::Paused;
        }
    }

    /// Merge two phase outcomes, with `GameOver` absorbing: if either side is
    /// `GameOver` the result is `GameOver`, otherwise the right-hand side
    /// wins.
    pub fn combine(self, rhs: GameState) -> (r: GameState)
        ensures
            r == GameState::spec_combine(self, rhs),
    {
        match (self, rhs) {
            (GameState::GameOver, _) => GameState::GameOver,
            (_, GameState::GameOver) => GameState::GameOver,
            _ => rhs,
        }
    }

    /// What `combine` returns.
    pub open spec fn spec_combine(a: GameState, b: GameState) -> GameState {
        if a == GameState::GameOver || b == GameState::GameOver {
            GameState::GameOver
        } else {
            b
        }
    }

    /// `GameOver` absorbs under `combine`, on either side.
    pub proof fn lemma_gameover_absorbs_combine(s: GameState)
        ensures
            GameState::spec_combine(GameState::GameOver, s) == GameState::GameOver,
            GameState::spec_combine(s, GameState::GameOver) == GameState::GameOver,
    {
    }
}

} // verus!
