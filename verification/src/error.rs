//! Failures of the platform integration.
//!
//! None of these is a logic error of the controller: each one reports that
//! the platform refused a resource the shell asked for.

use vstd::prelude::*;

verus! {

/// The tray menu could not be constructed.
#[derive(Clone, Copy, Debug, PartialEq, Eq, Structural)]
pub enum MenuConstructionError {
    /// Two entries of the menu carry the same identifier.
    DuplicateIdentifier,
    /// The platform menu interface refused an entry.
    PlatformRejected,
}

/// The tray icon could not be installed.
#[derive(Clone, Copy, Debug, PartialEq, Eq, Structural)]
pub enum TrayInstallError {
    /// The platform has no notification area to host the icon.
    NoTraySupport,
    /// The icon resource is missing.
    IconMissing,
    /// The operating system denied the registration.
    Denied,
}

/// The global hotkey could not be registered.
#[derive(Clone, Copy, Debug, PartialEq, Eq, Structural)]
pub enum HotkeyRegistrationError {
    /// Another process already holds the combination.
    AlreadyClaimed,
    /// The platform cannot bind the combination.
    Unsupported,
}

/// A failure that aborts startup.
///
/// A hotkey that cannot be registered is not among them: the shell runs
/// without it.
#[derive(Clone, Copy, Debug, PartialEq, Eq, Structural)]
pub enum StartupError {
    Menu(MenuConstructionError),
    Tray(TrayInstallError),
}

impl MenuConstructionError {
    /// The diagnostic text of this error.
    pub open spec fn spec_describe(self) -> Seq<char> {
        match self {
            MenuConstructionError::DuplicateIdentifier => "menu construction failed: duplicate action identifier"@,
            MenuConstructionError::PlatformRejected => "menu construction failed: the platform rejected a menu item"@,
        }
    }

    /// A one-line diagnostic for the user.
    pub fn describe(&self) -> (text: &'static str)
        ensures
            text@ == self.spec_describe(),
    {
        match self {
            MenuConstructionError::DuplicateIdentifier => "menu construction failed: duplicate action identifier",
            MenuConstructionError::PlatformRejected => "menu construction failed: the platform rejected a menu item",
        }
    }
}

impl TrayInstallError {
    /// The diagnostic text of this error.
    pub open spec fn spec_describe(self) -> Seq<char> {
        match self {
            TrayInstallError::NoTraySupport => "tray installation failed: no tray support"@,
            TrayInstallError::IconMissing => "tray installation failed: icon resource missing"@,
            TrayInstallError::Denied => "tray installation failed: registration denied"@,
        }
    }

    /// A one-line diagnostic for the user.
    pub fn describe(&self) -> (text: &'static str)
        ensures
            text@ == self.spec_describe(),
    {
        match self {
            TrayInstallError::NoTraySupport => "tray installation failed: no tray support",
            TrayInstallError::IconMissing => "tray installation failed: icon resource missing",
            TrayInstallError::Denied => "tray installation failed: registration denied",
        }
    }
}

impl HotkeyRegistrationError {
    /// The diagnostic text of this error.
    pub open spec fn spec_describe(self) -> Seq<char> {
        match self {
            HotkeyRegistrationError::AlreadyClaimed => "hotkey registration failed: combination already claimed"@,
            HotkeyRegistrationError::Unsupported => "hotkey registration failed: combination unsupported"@,
        }
    }

    /// A one-line diagnostic for the log.
    pub fn describe(&self) -> (text: &'static str)
        ensures
            text@ == self.spec_describe(),
    {
        match self {
            HotkeyRegistrationError::AlreadyClaimed => "hotkey registration failed: combination already claimed",
            HotkeyRegistrationError::Unsupported => "hotkey registration failed: combination unsupported",
        }
    }
}

impl StartupError {
    /// The diagnostic text of this error: that of the failure it wraps.
    pub open spec fn spec_describe(self) -> Seq<char> {
        match self {
            StartupError::Menu(e) => e.spec_describe(),
            StartupError::Tray(e) => e.spec_describe(),
        }
    }

    /// A one-line diagnostic for the user.
    pub fn describe(&self) -> (text: &'static str)
        ensures
            text@ == self.spec_describe(),
    {
        match self {
            StartupError::Menu(e) => e.describe(),
            StartupError::Tray(e) => e.describe(),
        }
    }
}

} // verus!
