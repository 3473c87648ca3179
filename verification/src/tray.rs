//! The tray icon and the table that routes an activated menu entry to the
//! event it stands for.

use vstd::prelude::*;
use crate::event::{ShellEvent, ShellEventView};
use crate::menu::{quit_identifier, show_identifier};
use crate::text::same_text;

verus! {

/// What a left click on the tray icon does.
#[derive(Clone, Copy, Debug, PartialEq, Eq, Structural)]
pub enum ClickPolicy {
    /// A left click opens the context menu.
    ShowMenuOnLeftClick,
    /// A left click does whatever the platform does by default.
    PlatformDefault,
}

/// The image shown in the notification area.
#[derive(Clone, Copy, Debug, PartialEq, Eq, Structural)]
pub enum Glyph {
    /// The icon of the application's windows.
    DefaultWindowIcon,
}

/// The tray icon of the process: there is one, from startup to exit.
///
/// The menu bound to it is the one held by the shell context.
#[derive(Clone, Copy, Debug, PartialEq, Eq, Structural)]
pub struct TrayIcon {
    pub glyph: Glyph,
    pub click_policy: ClickPolicy,
}

impl TrayIcon {
    /// The application's own icon, with the menu on a left click.
    pub open spec fn spec_standard() -> TrayIcon {
        TrayIcon { glyph: Glyph::DefaultWindowIcon, click_policy: ClickPolicy::ShowMenuOnLeftClick }
    }

    /// The application's own icon, with the menu on a left click.
    pub fn standard() -> (icon: TrayIcon)
        ensures
            icon == Self::spec_standard(),
    {
        TrayIcon { glyph: Glyph::DefaultWindowIcon, click_policy: ClickPolicy::ShowMenuOnLeftClick }
    }

    /// Whether a left click opens the menu.
    pub fn shows_menu_on_left_click(&self) -> (shows: bool)
        ensures
            shows == (self.click_policy == ClickPolicy::ShowMenuOnLeftClick),
    {
        match self.click_policy {
            ClickPolicy::ShowMenuOnLeftClick => true,
            ClickPolicy::PlatformDefault => false,
        }
    }
}

/// The event that an activated menu entry stands for: `show` asks for the
/// window, `quit` asks to quit, and no other identifier has a handler.
pub open spec fn spec_event_for(identifier: Seq<char>) -> Option<ShellEventView> {
    if identifier == show_identifier() {
        Some(ShellEventView::ShowRequested)
    } else if identifier == quit_identifier() {
        Some(ShellEventView::QuitRequested)
    } else {
        None
    }
}

/// Whether the table has a handler for the identifier.
pub open spec fn is_registered(identifier: Seq<char>) -> bool {
    identifier == show_identifier() || identifier == quit_identifier()
}

/// Looks an activated menu entry up in the table.
///
/// Identifiers are defined where the menu is built and consumed here, so
/// an identifier without a handler is tolerated: it yields `None`.
pub fn event_for(action_id: &str) -> (event: Option<ShellEvent>)
    ensures
        event.deep_view() == spec_event_for(action_id@),
{
    if same_text(action_id, "show") {
        Some(ShellEvent::ShowRequested)
    } else if same_text(action_id, "quit") {
        Some(ShellEvent::QuitRequested)
    } else {
        None
    }
}

} // verus!
