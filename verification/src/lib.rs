//! A controller for a background-resident desktop application that lives in
//! the system tray.
//!
//! The controller owns no platform resources. It decides what has to happen
//! (build the tray menu, install the tray icon, hide the window instead of
//! closing it, bring it back on a global hotkey, quit) and leaves the doing
//! to its host. Every decision is a function from the current state and an
//! event to the next state and an action for the host, so the whole
//! lifecycle can be driven with synthetic events.
//!
//! - [`menu`] defines the tray's context menu.
//! - [`tray`] describes the tray icon and routes an activated menu entry to
//!   the event it stands for.
//! - [`window`] keeps a close request from destroying the main window.
//! - [`hotkey`] describes the global key combination that shows the window.
//! - [`shell`] brings these up in order and reacts to events.
//! - [`laws`] states what holds of the shell in every state.

pub mod error;
pub mod event;
pub mod hotkey;
pub mod laws;
pub mod menu;
pub mod shell;
pub mod text;
pub mod tray;
pub mod window;

pub use shell::{run, PlatformScript, RunOutcome, ShellConfig, ShellContext, ShellPhase};
