//! The top-level flow of the game: menu, play and pause.

use vstd::prelude::*;

verus! {

/// Where the game is: in the main menu, in play, or paused.
#[derive(Clone, Copy, PartialEq, Eq, Structural, Debug, Hash)]
pub enum GameState {
    MainMenu,
    Playing,
    Paused,
}

impl Default for GameState {
    fn default() -> (state: Self)
        ensures
            state == GameState::MainMenu,
    {
        GameState::MainMenu
    }
}

impl GameState {
    /// The state after the escape key went down: play pauses, pause
    /// resumes, and the main menu stays.
    pub open spec fn spec_after_escape(&self) -> GameState {
        match self {
            GameState::Playing => GameState::Paused,
            GameState::Paused => GameState::Playing,
            GameState::MainMenu => GameState::MainMenu,
        }
    }

    /// The state after the escape key went down.
    #[verifier::when_used_as_spec(spec_after_escape)]
    pub fn after_escape(&self) -> (next: GameState)
        ensures
            next == self.spec_after_escape(),
    {
        match self {
            GameState::Playing => GameState::Paused,
            GameState::Paused => GameState::Playing,
            GameState::MainMenu => GameState::MainMenu,
        }
    }

    /// Whether the cursor is grabbed and hidden and the character takes
    /// input: only in play.
    pub open spec fn spec_captures_cursor(&self) -> bool {
        *self == GameState::Playing
    }

    /// Whether the cursor is grabbed and the character takes input.
    #[verifier::when_used_as_spec(spec_captures_cursor)]
    pub fn captures_cursor(&self) -> (captured: bool)
        ensures
            captured == self.spec_captures_cursor(),
    {
        *self == GameState::Playing
    }

    /// Escape pressed twice leads back to where it started.
    pub proof fn escape_twice_is_identity(state: GameState)
        ensures
            state.spec_after_escape().spec_after_escape() == state,
            state.spec_after_escape().spec_captures_cursor() <==> state == GameState::Paused,
    {
    }
}

} // verus!
