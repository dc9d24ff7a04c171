//! The screens of the application, the events that move between them, and
//! the bounded history that "go back" returns through.

use std::collections::VecDeque;
use vstd::prelude::*;

verus! {

/// The screen the application shows.
#[derive(Clone, Copy, Debug, PartialEq, Eq, Structural, Hash)]
pub enum AppState {
    /// Assets are being loaded.
    AssetLoading,
    /// The main menu.
    MainMenu,
    /// The settings dialog.
    Settings,
    /// The user is choosing a level.
    LevelSelection,
    /// The user is in a level.
    InGameLevel,
}

impl Default for AppState {
    /// The application starts by loading its assets.
    fn default() -> (state: AppState)
        ensures
            state == AppState::AssetLoading,
    {
        AppState::AssetLoading
    }
}

/// What the user asked for.
#[derive(Clone, Copy, Debug, PartialEq, Eq, Structural)]
pub enum AppTransitionEvent {
    /// Go on with the game.
    Continue,
    /// Open the level selection, or pick the level with the given index.
    SelectLevel(Option<usize>),
    /// Play the current level again.
    Retry,
    /// Play the level with the given index next.
    NextLevel(usize),
    /// Open the settings.
    Settings,
    /// Return to the screen shown before.
    GoBack,
}

/// A history of states that remembers at most `limit` of them: when it is
/// full, a push forgets the oldest. A history with limit zero never counts
/// as full once it holds a state, and so forgets nothing.
#[derive(Debug)]
pub struct StateStack<S> {
    queue: VecDeque<S>,
    max_size: usize,
}

impl<S> View for StateStack<S> {
    type V = Seq<S>;

    /// The remembered states, oldest first.
    closed spec fn view(&self) -> Seq<S> {
        self.queue@
    }
}

impl<S> StateStack<S> {
    /// The number of states at which a push starts to forget.
    pub closed spec fn limit(&self) -> usize {
        self.max_size
    }

    /// A history with a positive limit never holds more states than that.
    /// Every history that `new` made and `push` and `pop` changed is such.
    pub open spec fn wf(&self) -> bool {
        self.limit() == 0 || self@.len() <= self.limit()
    }

    /// A history after one more state: without its oldest entry if it held
    /// exactly `limit` states, and with the new state last.
    pub open spec fn pushed(history: Seq<S>, limit: usize, state: S) -> Seq<S> {
        if history.len() == limit && history.len() > 0 {
            history.skip(1).push(state)
        } else {
            history.push(state)
        }
    }

    /// An empty history with the given limit.
    pub fn new(max_size: usize) -> (stack: Self)
        ensures
            stack@ == Seq::<S>::empty(),
            stack.limit() == max_size,
            stack.wf(),
    {
        Self { queue: VecDeque::new(), max_size }
    }

    /// Remembers `state` as the newest entry.
    pub fn push(&mut self, state: S)
        requires
            old(self).wf(),
        ensures
            final(self).wf(),
            final(self)@ == Self::pushed(old(self)@, old(self).limit(), state),
            final(self).limit() == old(self).limit(),
    {
        if self.queue.len() == self.max_size {
            let _ = self.queue.pop_front();
        }
        self.queue.push_back(state);
    }

    /// Takes the newest entry out, if there is one.
    pub fn pop(&mut self) -> (newest: Option<S>)
        requires
            old(self).wf(),
        ensures
            final(self).wf(),
            final(self).limit() == old(self).limit(),
            old(self)@.len() == 0 ==> newest is None && final(self)@ == old(self)@,
            old(self)@.len() > 0 ==> newest == Some(old(self)@.last())
                && final(self)@ == old(self)@.drop_last(),
    {
        self.queue.pop_back()
    }

    /// How many states are remembered.
    pub fn len(&self) -> (count: usize)
        ensures
            count == self@.len(),
    {
        self.queue.len()
    }
}

impl Default for StateStack<AppState> {
    /// A history of the last ten screens.
    fn default() -> (stack: Self)
        ensures
            stack@ == Seq::<AppState>::empty(),
            stack.limit() == 10,
            stack.wf(),
    {
        Self::new(10)
    }
}

/// The screen that `event` leads to from `current`, or `None` where the
/// event means nothing on that screen. Going back leads to the newest
/// remembered screen, and to the main menu when none is remembered.
pub open spec fn app_target(current: AppState, event: AppTransitionEvent, history: Seq<AppState>)
    -> Option<AppState> {
    match (current, event) {
        (AppState::MainMenu, AppTransitionEvent::Continue) => Some(AppState::InGameLevel),
        (AppState::MainMenu, AppTransitionEvent::SelectLevel(None)) => Some(
            AppState::LevelSelection,
        ),
        (AppState::MainMenu, AppTransitionEvent::Settings) => Some(AppState::Settings),
        (AppState::LevelSelection, AppTransitionEvent::SelectLevel(_)) => Some(
            AppState::InGameLevel,
        ),
        (AppState::InGameLevel, AppTransitionEvent::NextLevel(_)) => Some(AppState::InGameLevel),
        (AppState::InGameLevel, AppTransitionEvent::Retry) => Some(AppState::InGameLevel),
        (_, AppTransitionEvent::GoBack) => Some(
            if history.len() > 0 {
                history.last()
            } else {
                AppState::MainMenu
            },
        ),
        _ => None,
    }
}

/// The history once the transition is made: going back first takes out the
/// screen it returns to; every transition then remembers the screen left.
pub open spec fn app_history_after(
    current: AppState,
    event: AppTransitionEvent,
    history: Seq<AppState>,
    limit: usize,
) -> Seq<AppState> {
    let kept = if event == AppTransitionEvent::GoBack && history.len() > 0 {
        history.drop_last()
    } else {
        history
    };
    StateStack::<AppState>::pushed(kept, limit, current)
}

/// Tells whether `event` means anything on the screen `current`. Going back
/// always does.
pub fn app_transition_allowed(current: AppState, event: AppTransitionEvent) -> (allowed: bool)
    ensures
        forall|history: Seq<AppState>| allowed == (#[trigger] app_target(current, event, history)
            is Some),
{
    match (current, event) {
        (AppState::MainMenu, AppTransitionEvent::Continue) => true,
        (AppState::MainMenu, AppTransitionEvent::SelectLevel(None)) => true,
        (AppState::MainMenu, AppTransitionEvent::Settings) => true,
        (AppState::LevelSelection, AppTransitionEvent::SelectLevel(_)) => true,
        (AppState::InGameLevel, AppTransitionEvent::NextLevel(_)) => true,
        (AppState::InGameLevel, AppTransitionEvent::Retry) => true,
        (_, AppTransitionEvent::GoBack) => true,
        _ => false,
    }
}

/// Makes the transition that `event` asks for on the screen `current`:
/// returns the next screen and remembers the one left.
pub fn app_transition(
    previous_state: &mut StateStack<AppState>,
    current: AppState,
    event: AppTransitionEvent,
) -> (next: AppState)
    requires
        old(previous_state).wf(),
        app_target(current, event, old(previous_state)@) is Some,
    ensures
        final(previous_state).wf(),
        Some(next) == app_target(current, event, old(previous_state)@),
        final(previous_state)@ == app_history_after(
            current,
            event,
            old(previous_state)@,
            old(previous_state).limit(),
        ),
        final(previous_state).limit() == old(previous_state).limit(),
{
    let next = match (current, event) {
        (AppState::MainMenu, AppTransitionEvent::Continue) => AppState::InGameLevel,
        (AppState::MainMenu, AppTransitionEvent::SelectLevel(None)) => AppState::LevelSelection,
        (AppState::MainMenu, AppTransitionEvent::Settings) => AppState::Settings,
        (AppState::LevelSelection, AppTransitionEvent::SelectLevel(_)) => AppState::InGameLevel,
        (AppState::InGameLevel, AppTransitionEvent::NextLevel(_)) => AppState::InGameLevel,
        (AppState::InGameLevel, AppTransitionEvent::Retry) => AppState::InGameLevel,
        (_, AppTransitionEvent::GoBack) => {
            match previous_state.pop() {
                Some(state) => state,
                None => AppState::MainMenu,
            }
        },
        _ => {
            proof {
                assert(false);
            }
            current
        },
    };
    previous_state.push(current);
    next
}

/// Going back undoes going back: from a screen with a remembered
/// predecessor, in a history within its positive limit, going back twice
/// ends on the screen it started from, with the history it started with.
pub proof fn lemma_going_back_twice_returns(
    current: AppState,
    history: Seq<AppState>,
    limit: usize,
)
    requires
        0 < history.len() <= limit,
    ensures
        app_target(current, AppTransitionEvent::GoBack, history) == Some(history.last()),
        app_target(
            history.last(),
            AppTransitionEvent::GoBack,
            app_history_after(current, AppTransitionEvent::GoBack, history, limit),
        ) == Some(current),
        app_history_after(
            history.last(),
            AppTransitionEvent::GoBack,
            app_history_after(current, AppTransitionEvent::GoBack, history, limit),
            limit,
        ) == history,
{
    let between = app_history_after(current, AppTransitionEvent::GoBack, history, limit);
    assert(between == history.drop_last().push(current));
    assert(between.last() == current);
    assert(between.drop_last() =~= history.drop_last());
    assert(history.drop_last().push(history.last()) =~= history);
}

} // verus!
