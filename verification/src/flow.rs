//! The game-flow state machine: which of the four application states is
//! active, and along which edges it may change.

use vstd::prelude::*;

use crate::GameError;

verus! {

/// The mutually exclusive application states. Exactly one is active at
/// any time, for the whole run of the application.
#[derive(Clone, Copy, Debug, PartialEq, Eq, Structural)]
pub enum GameState {
    Splash,
    Menu,
    Playing,
    GameOver,
}

/// The decoded occurrences that can ask the state machine to move.
#[derive(Clone, Copy, Debug, PartialEq, Eq, Structural)]
pub enum Trigger {
    /// The splash timer ran out, or the player skipped the splash.
    SplashDone,
    /// The player chose "play" in the menu.
    PlaySelected,
    /// The running game met its loss condition.
    LossConditionMet,
    /// The player confirmed a restart on the game-over screen.
    RestartConfirmed,
    /// An explicit request to return to the menu.
    ReturnToMenu,
}

/// The five edges of the game flow, and nothing else:
/// splash to menu, menu to playing, playing to game over, game over
/// back to playing, and — from playing or game over alike — back to
/// the menu. Every other pair is forbidden.
pub open spec fn allowed_next(s: GameState, t: Trigger) -> Option<GameState> {
    match (s, t) {
        (GameState::Splash, Trigger::SplashDone) => Some(GameState::Menu),
        (GameState::Menu, Trigger::PlaySelected) => Some(GameState::Playing),
        (GameState::Playing, Trigger::LossConditionMet) => Some(GameState::GameOver),
        (GameState::GameOver, Trigger::RestartConfirmed) => Some(GameState::Playing),
        (GameState::Playing, Trigger::ReturnToMenu) => Some(GameState::Menu),
        (GameState::GameOver, Trigger::ReturnToMenu) => Some(GameState::Menu),
        _ => None,
    }
}

/// Sole owner and writer of the active game state.
pub struct GameFlowController {
    state: GameState,
}

impl GameFlowController {
    pub closed spec fn spec_state(self) -> GameState {
        self.state
    }

    /// A fresh application starts on the splash screen.
    pub fn new() -> (c: GameFlowController)
        ensures
            c.spec_state() == GameState::Splash,
    {
        GameFlowController { state: GameState::Splash }
    }

    pub fn state(&self) -> (s: GameState)
        ensures
            s == self.spec_state(),
    {
        self.state
    }

    /// Moves along the edge the trigger names, when the state machine
    /// has it; otherwise reports the attempt as forbidden and leaves
    /// the state untouched.
    pub fn transition(&mut self, t: Trigger) -> (r: Result<GameState, GameError>)
        ensures
            match allowed_next(old(self).spec_state(), t) {
                Some(next) => {
                    &&& r == Ok::<GameState, GameError>(next)
                    &&& final(self).spec_state() == next
                },
                None => {
                    &&& r == Err::<GameState, GameError>(GameError::ForbiddenTransition)
                    &&& *final(self) == *old(self)
                },
            },
    {
        let next = match (self.state, t) {
            (GameState::Splash, Trigger::SplashDone) => Some(GameState::Menu),
            (GameState::Menu, Trigger::PlaySelected) => Some(GameState::Playing),
            (GameState::Playing, Trigger::LossConditionMet) => Some(GameState::GameOver),
            (GameState::GameOver, Trigger::RestartConfirmed) => Some(GameState::Playing),
            (GameState::Playing, Trigger::ReturnToMenu) => Some(GameState::Menu),
            (GameState::GameOver, Trigger::ReturnToMenu) => Some(GameState::Menu),
            _ => None,
        };
        match next {
            Some(s) => {
                self.state = s;
                Ok(s)
            },
            None => Err(GameError::ForbiddenTransition),
        }
    }
}

} // verus!
