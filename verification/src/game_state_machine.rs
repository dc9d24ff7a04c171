//! The states of a level while the application is inside one, and the
//! events that move between them.

use vstd::prelude::*;
use crate::app_state_machine::AppState;

verus! {

/// The state of the level being played.
#[derive(Clone, Copy, Debug, PartialEq, Eq, Structural, Hash)]
pub enum GameState {
    /// The application is not inside a level.
    Inactive,
    /// The level's assets are being loaded.
    AssetLoading,
    /// The simulation runs.
    Playing,
    /// The simulation is halted.
    Paused,
    /// The player beat the level.
    Completed,
    /// The player failed the level.
    Failed,
}

impl Default for GameState {
    /// Outside a level there is no game.
    fn default() -> (state: GameState)
        ensures
            state == GameState::Inactive,
    {
        GameState::Inactive
    }
}

/// What happened to the level.
#[derive(Clone, Copy, Debug, PartialEq, Eq, Structural)]
pub enum GameTransitionEvent {
    Play,
    Prepare,
    Pause,
    Unpause,
    Complete,
    Fail,
}

/// The state that was left by the last transition, if any was made.
#[derive(Debug, PartialEq, Eq, Structural)]
pub struct PreviousState<S>(pub Option<S>);

impl<S> Default for PreviousState<S> {
    /// No transition was made yet.
    fn default() -> (previous: Self)
        ensures
            previous.0 is None,
    {
        PreviousState(None)
    }
}

/// The level state the application's screen calls for: inside a level its
/// assets load first, everywhere else there is no game.
pub open spec fn game_state_for(app_state: AppState) -> GameState {
    if app_state == AppState::InGameLevel {
        GameState::AssetLoading
    } else {
        GameState::Inactive
    }
}

/// Chooses the level state to enter when the application's screen has
/// changed to `app_state`.
pub fn from_none_state(app_state: AppState) -> (next: GameState)
    ensures
        next == game_state_for(app_state),
{
    match app_state {
        AppState::InGameLevel => GameState::AssetLoading,
        _ => GameState::Inactive,
    }
}

/// The state that `event` leads to from `current`, or `None` where the
/// event means nothing in that state. Only a running level can be paused,
/// completed or failed, and only a paused one resumed.
pub open spec fn game_target(current: GameState, event: GameTransitionEvent) -> Option<GameState> {
    match (current, event) {
        (GameState::Playing, GameTransitionEvent::Pause) => Some(GameState::Paused),
        (GameState::Paused, GameTransitionEvent::Unpause) => Some(GameState::Playing),
        (GameState::Playing, GameTransitionEvent::Complete) => Some(GameState::Completed),
        (GameState::Playing, GameTransitionEvent::Fail) => Some(GameState::Failed),
        _ => None,
    }
}

/// Tells whether `event` means anything in the state `current`.
pub fn game_transition_allowed(current: GameState, event: GameTransitionEvent) -> (allowed: bool)
    ensures
        allowed == (game_target(current, event) is Some),
{
    match (current, event) {
        (GameState::Playing, GameTransitionEvent::Pause) => true,
        (GameState::Paused, GameTransitionEvent::Unpause) => true,
        (GameState::Playing, GameTransitionEvent::Complete) => true,
        (GameState::Playing, GameTransitionEvent::Fail) => true,
        _ => false,
    }
}

/// Makes the transition that `event` asks for in the state `current`:
/// returns the next state and records the one left.
pub fn game_transition(
    previous_state: &mut PreviousState<GameState>,
    current: GameState,
    event: GameTransitionEvent,
) -> (next: GameState)
    requires
        game_target(current, event) is Some,
    ensures
        Some(next) == game_target(current, event),
        final(previous_state).0 == Some(current),
{
    let next = match (current, event) {
        (GameState::Playing, GameTransitionEvent::Pause) => GameState::Paused,
        (GameState::Paused, GameTransitionEvent::Unpause) => GameState::Playing,
        (GameState::Playing, GameTransitionEvent::Complete) => GameState::Completed,
        (GameState::Playing, GameTransitionEvent::Fail) => GameState::Failed,
        _ => {
            proof {
                assert(false);
            }
            current
        },
    };
    previous_state.0 = Some(current);
    next
}

} // verus!
