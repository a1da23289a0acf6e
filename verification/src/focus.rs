//! Which panel owns the keyboard.

use vstd::prelude::*;

verus! {

/// The index under which the timer buttons panel is known to the screen.
pub const TIMER_BUTTONS_PANEL_INDEX: usize = 0;

/// The index of the project list panel.
pub const PROJECT_LIST_PANEL_INDEX: usize = 1;

/// The index of the timer list panel.
pub const TIMER_LIST_PANEL_INDEX: usize = 2;

/// The index of the project name input panel.
pub const PROJECT_INPUT_PANEL_INDEX: usize = 1001;

/// The panel that currently receives keyboard input.
#[derive(Debug, Clone, Copy, PartialEq, Eq, Structural)]
pub enum FocusState {
    TimerButtons,
    ProjectList,
    TimerList,
    ProjectInput,
}

impl FocusState {
    /// The panel that follows `self` in the focus cycle
    /// timer buttons, project list, timer list, timer buttons. The input
    /// panel is not part of the cycle: it keeps the focus.
    pub open spec fn advanced(self) -> FocusState {
        match self {
            FocusState::TimerButtons => FocusState::ProjectList,
            FocusState::ProjectList => FocusState::TimerList,
            FocusState::TimerList => FocusState::TimerButtons,
            FocusState::ProjectInput => FocusState::ProjectInput,
        }
    }

    /// The index of the panel, as one of the `*_PANEL_INDEX` constants.
    pub open spec fn index(self) -> usize {
        match self {
            FocusState::TimerButtons => TIMER_BUTTONS_PANEL_INDEX,
            FocusState::ProjectList => PROJECT_LIST_PANEL_INDEX,
            FocusState::TimerList => TIMER_LIST_PANEL_INDEX,
            FocusState::ProjectInput => PROJECT_INPUT_PANEL_INDEX,
        }
    }

    /// The panel that has the focus at startup.
    pub fn initial() -> (focus: Self)
        ensures
            focus == FocusState::TimerButtons,
    {
        FocusState::TimerButtons
    }

    /// Computes `advanced`.
    pub fn advance_focus(self) -> (next: Self)
        ensures
            next == self.advanced(),
    {
        match self {
            FocusState::TimerButtons => FocusState::ProjectList,
            FocusState::ProjectList => FocusState::TimerList,
            FocusState::TimerList => FocusState::TimerButtons,
            FocusState::ProjectInput => FocusState::ProjectInput,
        }
    }

    /// Computes `index`.
    pub fn panel_index(self) -> (index: usize)
        ensures
            index == self.index(),
    {
        match self {
            FocusState::TimerButtons => TIMER_BUTTONS_PANEL_INDEX,
            FocusState::ProjectList => PROJECT_LIST_PANEL_INDEX,
            FocusState::TimerList => TIMER_LIST_PANEL_INDEX,
            FocusState::ProjectInput => PROJECT_INPUT_PANEL_INDEX,
        }
    }
}

/// Cycling never reaches the input panel, and three steps from any panel of
/// the cycle lead back to it.
pub proof fn lemma_focus_cycle(focus: FocusState)
    requires
        focus != FocusState::ProjectInput,
    ensures
        focus.advanced() != FocusState::ProjectInput,
        focus.advanced().advanced().advanced() == focus,
{
}

} // verus!
