//! What the platform reports to the controller, and what the controller
//! asks of its host in return.

use vstd::prelude::*;
use crate::error::{HotkeyRegistrationError, MenuConstructionError, TrayInstallError};
use crate::hotkey::{KeyCombination, KeyCombinationView};

verus! {

/// The exit code of an explicit quit.
pub const EXIT_SUCCESS: i32 = 0;

/// An event delivered by the host's event loop once the shell is up.
#[derive(Debug, PartialEq, Eq)]
pub enum ShellEvent {
    /// Something asked for the window to be shown.
    ShowRequested,
    /// The user chose to quit.
    QuitRequested,
    /// A global hotkey fired, with the combination that fired.
    HotkeyFired(KeyCombination),
    /// The user clicked the window's close control.
    CloseRequested,
}

/// A shell event as a mathematical value.
pub enum ShellEventView {
    ShowRequested,
    QuitRequested,
    HotkeyFired(KeyCombinationView),
    CloseRequested,
}

impl View for ShellEvent {
    type V = ShellEventView;

    open spec fn view(&self) -> ShellEventView {
        match self {
            ShellEvent::ShowRequested => ShellEventView::ShowRequested,
            ShellEvent::QuitRequested => ShellEventView::QuitRequested,
            ShellEvent::HotkeyFired(combination) => ShellEventView::HotkeyFired(combination@),
            ShellEvent::CloseRequested => ShellEventView::CloseRequested,
        }
    }
}

impl DeepView for ShellEvent {
    type V = ShellEventView;

    open spec fn deep_view(&self) -> ShellEventView {
        self@
    }
}

impl Clone for ShellEvent {
    fn clone(&self) -> (copy: ShellEvent)
        ensures
            copy@ == self@,
    {
        match self {
            ShellEvent::ShowRequested => ShellEvent::ShowRequested,
            ShellEvent::QuitRequested => ShellEvent::QuitRequested,
            ShellEvent::HotkeyFired(combination) => ShellEvent::HotkeyFired(combination.clone()),
            ShellEvent::CloseRequested => ShellEvent::CloseRequested,
        }
    }
}

/// What the host has to do after the controller has handled an event.
#[derive(Clone, Copy, Debug, PartialEq, Eq, Structural)]
pub enum ShellAction {
    /// Nothing.
    Nothing,
    /// Show the window and bring it to the front.
    ShowWindow,
    /// Suppress the default close and hide the window, keeping its content.
    HideWindow,
    /// Let the platform close the window: no interception is installed.
    AllowClose,
    /// End the process with this exit code.
    Exit(i32),
    /// Note in the log that a menu identifier has no handler.
    LogUnhandled,
}

/// The outcome of one startup step, as the host reports it.
#[derive(Clone, Copy, Debug, PartialEq, Eq, Structural)]
pub enum StartupEvent {
    /// The platform menu was created.
    MenuBuilt,
    /// The platform refused the menu.
    MenuRejected(MenuConstructionError),
    /// The tray icon is in the notification area.
    TrayInstalled,
    /// The tray icon could not be installed.
    TrayDenied(TrayInstallError),
    /// The close request of the main window is intercepted from now on.
    WindowGuarded,
    /// The global hotkey is bound.
    HotkeyRegistered,
    /// The global hotkey could not be bound.
    HotkeyRefused(HotkeyRegistrationError),
}

impl StartupEvent {
    /// The startup step whose outcome this event reports.
    pub open spec fn reports_on(self) -> Option<StartupAction> {
        match self {
            StartupEvent::MenuBuilt => Some(StartupAction::BuildMenu),
            StartupEvent::MenuRejected(_) => Some(StartupAction::BuildMenu),
            StartupEvent::TrayInstalled => Some(StartupAction::InstallTray),
            StartupEvent::TrayDenied(_) => Some(StartupAction::InstallTray),
            StartupEvent::WindowGuarded => Some(StartupAction::GuardWindow),
            StartupEvent::HotkeyRegistered => Some(StartupAction::RegisterHotkey),
            StartupEvent::HotkeyRefused(_) => Some(StartupAction::RegisterHotkey),
        }
    }
}

/// The startup step that the host has to perform next.
#[derive(Clone, Copy, Debug, PartialEq, Eq, Structural)]
pub enum StartupAction {
    /// Create the platform menu from the menu definition.
    BuildMenu,
    /// Install the tray icon and bind the menu to it.
    InstallTray,
    /// Intercept the close request of the main window.
    GuardWindow,
    /// Register the global hotkey.
    RegisterHotkey,
}

} // verus!
