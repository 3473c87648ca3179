//! The visibility of the main window and the guard that keeps a close
//! request from destroying it.

use vstd::prelude::*;
use crate::event::ShellAction;

verus! {

/// Whether the main window is on screen.
///
/// The process is alive in both states: hiding the window never ends it.
#[derive(Clone, Copy, Debug, PartialEq, Eq, Structural)]
pub enum WindowVisibilityState {
    Visible,
    Hidden,
}

impl WindowVisibilityState {
    /// The state the window starts in.
    pub open spec fn spec_initial() -> WindowVisibilityState {
        WindowVisibilityState::Visible
    }

    /// The state after a request to show the window.
    pub open spec fn spec_after_show(self) -> WindowVisibilityState {
        WindowVisibilityState::Visible
    }

    /// What a request to show the window asks of the host: to raise a
    /// hidden window, and nothing of a visible one.
    pub open spec fn spec_show_action(self) -> ShellAction {
        match self {
            WindowVisibilityState::Hidden => ShellAction::ShowWindow,
            WindowVisibilityState::Visible => ShellAction::Nothing,
        }
    }

    /// The state after a close request: hidden where the guard intercepts
    /// it, unchanged where nothing intercepts it.
    pub open spec fn spec_after_close(self, guarded: bool) -> WindowVisibilityState {
        if guarded {
            WindowVisibilityState::Hidden
        } else {
            self
        }
    }

    /// What a close request asks of the host.
    pub open spec fn spec_close_action(guarded: bool) -> ShellAction {
        if guarded {
            ShellAction::HideWindow
        } else {
            ShellAction::AllowClose
        }
    }

    /// The state every window starts in.
    pub fn initial() -> (state: WindowVisibilityState)
        ensures
            state == Self::spec_initial(),
    {
        WindowVisibilityState::Visible
    }

    /// Handles a request to show the window.
    ///
    /// A hidden window becomes visible and is raised; a visible one is left
    /// alone.
    pub fn show_requested(self) -> (next: (WindowVisibilityState, ShellAction))
        ensures
            next.0 == self.spec_after_show(),
            next.1 == self.spec_show_action(),
    {
        match self {
            WindowVisibilityState::Hidden => (WindowVisibilityState::Visible, ShellAction::ShowWindow),
            WindowVisibilityState::Visible => (WindowVisibilityState::Visible, ShellAction::Nothing),
        }
    }

    /// Handles a request to close the window.
    ///
    /// Where the guard is in force the close is intercepted and the window
    /// is hidden instead of destroyed. Where it is not, the platform's own
    /// close goes ahead and the state is not touched.
    pub fn close_requested(self, guarded: bool) -> (next: (WindowVisibilityState, ShellAction))
        ensures
            next.0 == self.spec_after_close(guarded),
            next.1 == Self::spec_close_action(guarded),
    {
        if guarded {
            (WindowVisibilityState::Hidden, ShellAction::HideWindow)
        } else {
            (self, ShellAction::AllowClose)
        }
    }

    /// Whether the window is on screen.
    pub fn is_visible(&self) -> (visible: bool)
        ensures
            visible == (*self == WindowVisibilityState::Visible),
    {
        match self {
            WindowVisibilityState::Visible => true,
            WindowVisibilityState::Hidden => false,
        }
    }
}

} // verus!
