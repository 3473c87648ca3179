//! The shell lifecycle controller.
//!
//! It brings the shell up in dependency order (menu, tray, window guard,
//! hotkey) and then reacts to events. It performs nothing itself: the host
//! carries out each startup step and each action, and reports back.

use vstd::prelude::*;
use crate::error::{HotkeyRegistrationError, MenuConstructionError, StartupError, TrayInstallError};
use crate::event::{
    ShellAction, ShellEvent, ShellEventView, StartupAction, StartupEvent, EXIT_SUCCESS,
};
use crate::hotkey::{
    GlobalShortcutBinding, HotkeyCapability, HotkeyStatus, HotkeyStatusView, KeyCombination,
    KeyCombinationView,
};
use crate::menu::{build_menu, Menu, MenuActionView, MenuVariant};
use crate::tray::{event_for, spec_event_for, TrayIcon};
use crate::window::WindowVisibilityState;

verus! {

/// How far the shell has come.
#[derive(Clone, Copy, Debug, PartialEq, Eq, Structural)]
pub enum ShellPhase {
    /// Nothing is set up; the menu is to be built.
    BuildingMenu,
    /// The menu is built; the tray icon is to be installed.
    InstallingTray,
    /// The tray icon is installed; the window's close request is to be
    /// intercepted.
    GuardingWindow,
    /// The window is guarded; the global hotkey is to be registered.
    RegisteringHotkey,
    /// Startup is complete; the shell reacts to events.
    Running,
    /// Startup was aborted with this error; nothing is intercepted.
    Aborted(StartupError),
}

impl ShellPhase {
    /// How many startup steps lie behind a phase. An aborted startup has
    /// no step left to take, as a running shell has none.
    pub open spec fn rank(self) -> nat {
        match self {
            ShellPhase::BuildingMenu => 0,
            ShellPhase::InstallingTray => 1,
            ShellPhase::GuardingWindow => 2,
            ShellPhase::RegisteringHotkey => 3,
            ShellPhase::Running => 4,
            ShellPhase::Aborted(_) => 4,
        }
    }
}

/// What the shell is made of: its menu, its tray icon and its hotkey.
#[derive(Debug, PartialEq, Eq)]
pub struct ShellConfig {
    pub menu: Menu,
    pub tray: TrayIcon,
    pub hotkey: HotkeyCapability,
}

/// A shell configuration as a mathematical value.
pub struct ShellConfigView {
    pub menu: Seq<MenuActionView>,
    pub tray: TrayIcon,
    pub hotkey: Option<KeyCombinationView>,
}

impl View for ShellConfig {
    type V = ShellConfigView;

    open spec fn view(&self) -> ShellConfigView {
        ShellConfigView { menu: self.menu@, tray: self.tray, hotkey: self.hotkey@ }
    }
}

impl Clone for ShellConfig {
    fn clone(&self) -> (copy: ShellConfig)
        ensures
            copy@ == self@,
    {
        ShellConfig { menu: self.menu.clone(), tray: self.tray, hotkey: self.hotkey.clone() }
    }
}

impl ShellConfigView {
    /// The configuration of a desktop shell: the extended menu, the
    /// standard tray icon, and Control, Shift and Space as the hotkey.
    pub open spec fn desktop() -> ShellConfigView {
        ShellConfigView {
            menu: MenuVariant::Extended.spec_actions(),
            tray: TrayIcon::spec_standard(),
            hotkey: Some(KeyCombinationView::show_window()),
        }
    }

    /// The configuration of a shell on a target without global hotkeys.
    pub open spec fn without_hotkey() -> ShellConfigView {
        ShellConfigView {
            menu: MenuVariant::Extended.spec_actions(),
            tray: TrayIcon::spec_standard(),
            hotkey: None,
        }
    }
}

impl ShellConfig {
    /// A configuration of the given parts.
    pub fn new(menu: Menu, tray: TrayIcon, hotkey: HotkeyCapability) -> (config: ShellConfig)
        ensures
            config@ == (ShellConfigView { menu: menu@, tray, hotkey: hotkey@ }),
    {
        ShellConfig { menu, tray, hotkey }
    }

    /// The configuration of a desktop shell: the extended menu, the
    /// standard tray icon, and Control, Shift and Space as the hotkey.
    pub fn desktop() -> (config: ShellConfig)
        ensures
            config@ == ShellConfigView::desktop(),
    {
        ShellConfig {
            menu: build_menu(MenuVariant::Extended),
            tray: TrayIcon::standard(),
            hotkey: HotkeyCapability::Desktop(KeyCombination::show_window()),
        }
    }

    /// The configuration of a shell on a target without global hotkeys.
    pub fn without_hotkey() -> (config: ShellConfig)
        ensures
            config@ == ShellConfigView::without_hotkey(),
    {
        ShellConfig {
            menu: build_menu(MenuVariant::Extended),
            tray: TrayIcon::standard(),
            hotkey: HotkeyCapability::Unavailable,
        }
    }
}

/// What the platform answers to each startup step that can fail.
#[derive(Clone, Copy, Debug, PartialEq, Eq)]
pub struct PlatformScript {
    pub menu: Result<(), MenuConstructionError>,
    pub tray: Result<(), TrayInstallError>,
    pub hotkey: Result<(), HotkeyRegistrationError>,
}

impl PlatformScript {
    /// The report of the menu step.
    pub open spec fn menu_event(self) -> StartupEvent {
        match self.menu {
            Ok(_) => StartupEvent::MenuBuilt,
            Err(error) => StartupEvent::MenuRejected(error),
        }
    }

    /// The report of the tray step.
    pub open spec fn tray_event(self) -> StartupEvent {
        match self.tray {
            Ok(_) => StartupEvent::TrayInstalled,
            Err(error) => StartupEvent::TrayDenied(error),
        }
    }

    /// The report of the hotkey step.
    pub open spec fn hotkey_event(self) -> StartupEvent {
        match self.hotkey {
            Ok(_) => StartupEvent::HotkeyRegistered,
            Err(error) => StartupEvent::HotkeyRefused(error),
        }
    }

    /// A platform that grants everything.
    pub fn cooperative() -> (script: PlatformScript)
        ensures
            script == (PlatformScript { menu: Ok(()), tray: Ok(()), hotkey: Ok(()) }),
    {
        PlatformScript { menu: Ok(()), tray: Ok(()), hotkey: Ok(()) }
    }
}

/// The state of the shell as a mathematical value.
pub struct ShellState {
    pub config: ShellConfigView,
    pub phase: ShellPhase,
    pub visibility: WindowVisibilityState,
    pub exited: bool,
    pub hotkey: HotkeyStatusView,
}

impl ShellState {
    /// The state before any startup step: the window visible, nothing
    /// installed, the process alive.
    pub open spec fn initial(config: ShellConfigView) -> ShellState {
        ShellState {
            config,
            phase: ShellPhase::BuildingMenu,
            visibility: WindowVisibilityState::spec_initial(),
            exited: false,
            hotkey: HotkeyStatusView::Unregistered,
        }
    }

    /// Whether the tray icon is in the notification area: from the moment
    /// it is installed until the process quits. For as long, a close
    /// request is intercepted.
    pub open spec fn tray_installed(self) -> bool {
        !self.exited && (self.phase == ShellPhase::GuardingWindow || self.phase
            == ShellPhase::RegisteringHotkey || self.phase == ShellPhase::Running)
    }

    /// Whether startup is complete and the process has not quit.
    pub open spec fn running(self) -> bool {
        self.phase == ShellPhase::Running && !self.exited
    }

    /// The exit code, once the process has quit.
    pub open spec fn exit_code(self) -> Option<i32> {
        if self.exited {
            Some(EXIT_SUCCESS)
        } else {
            None
        }
    }

    /// The error that aborted startup, if one did.
    pub open spec fn startup_error(self) -> Option<StartupError> {
        match self.phase {
            ShellPhase::Aborted(error) => Some(error),
            _ => None,
        }
    }

    /// The startup step that is due, if startup is still under way.
    pub open spec fn pending(self) -> Option<StartupAction> {
        if self.exited {
            None
        } else {
            match self.phase {
                ShellPhase::BuildingMenu => Some(StartupAction::BuildMenu),
                ShellPhase::InstallingTray => Some(StartupAction::InstallTray),
                ShellPhase::GuardingWindow => Some(StartupAction::GuardWindow),
                ShellPhase::RegisteringHotkey => Some(StartupAction::RegisterHotkey),
                ShellPhase::Running => None,
                ShellPhase::Aborted(_) => None,
            }
        }
    }

    /// The state after the host has reported on a startup step.
    ///
    /// A report counts only in the phase whose step it reports on. A menu
    /// or a tray that fails aborts startup. A hotkey that fails does not:
    /// the failure is recorded and the shell runs without the hotkey. Where
    /// the platform has no hotkey subsystem, that step is left out.
    pub open spec fn advance(self, event: StartupEvent) -> ShellState {
        if self.exited {
            self
        } else {
            match (self.phase, event) {
                (ShellPhase::BuildingMenu, StartupEvent::MenuBuilt) => ShellState {
                    phase: ShellPhase::InstallingTray,
                    ..self
                },
                (ShellPhase::BuildingMenu, StartupEvent::MenuRejected(error)) => ShellState {
                    phase: ShellPhase::Aborted(StartupError::Menu(error)),
                    ..self
                },
                (ShellPhase::InstallingTray, StartupEvent::TrayInstalled) => ShellState {
                    phase: ShellPhase::GuardingWindow,
                    ..self
                },
                (ShellPhase::InstallingTray, StartupEvent::TrayDenied(error)) => ShellState {
                    phase: ShellPhase::Aborted(StartupError::Tray(error)),
                    ..self
                },
                (ShellPhase::GuardingWindow, StartupEvent::WindowGuarded) => ShellState {
                    phase: if self.config.hotkey is Some {
                        ShellPhase::RegisteringHotkey
                    } else {
                        ShellPhase::Running
                    },
                    ..self
                },
                (ShellPhase::RegisteringHotkey, StartupEvent::HotkeyRegistered) => ShellState {
                    phase: ShellPhase::Running,
                    hotkey: match self.config.hotkey {
                        Some(combination) => HotkeyStatusView::Registered(combination),
                        None => HotkeyStatusView::Unregistered,
                    },
                    ..self
                },
                (ShellPhase::RegisteringHotkey, StartupEvent::HotkeyRefused(error)) => ShellState {
                    phase: ShellPhase::Running,
                    hotkey: HotkeyStatusView::Failed(error),
                    ..self
                },
                _ => self,
            }
        }
    }

    /// The state after a whole startup against a platform that answers as
    /// the script says.
    pub open spec fn start(self, platform: PlatformScript) -> ShellState {
        self.advance(platform.menu_event()).advance(platform.tray_event()).advance(
            StartupEvent::WindowGuarded,
        ).advance(platform.hotkey_event())
    }

    /// Whether the event asks for the window: a show request, or the bound
    /// hotkey.
    pub open spec fn asks_for_window(self, event: ShellEventView) -> bool {
        match event {
            ShellEventView::ShowRequested => true,
            ShellEventView::HotkeyFired(fired) => self.hotkey.listens_for(fired),
            _ => false,
        }
    }

    /// The state after an event.
    ///
    /// Quitting ends the process, whatever the window's state. A close
    /// request hides the window while the tray icon is installed. A show
    /// request, or the bound hotkey, makes the window visible. Nothing else
    /// changes the state, and nothing changes it once the process has quit.
    pub open spec fn next(self, event: ShellEventView) -> ShellState {
        if self.exited {
            self
        } else if event == ShellEventView::QuitRequested {
            ShellState { exited: true, ..self }
        } else if event == ShellEventView::CloseRequested {
            ShellState { visibility: self.visibility.spec_after_close(self.tray_installed()), ..self }
        } else if self.asks_for_window(event) {
            ShellState { visibility: self.visibility.spec_after_show(), ..self }
        } else {
            self
        }
    }

    /// What the host has to do after an event.
    pub open spec fn action(self, event: ShellEventView) -> ShellAction {
        if event == ShellEventView::QuitRequested {
            ShellAction::Exit(EXIT_SUCCESS)
        } else if self.exited {
            ShellAction::Nothing
        } else if event == ShellEventView::CloseRequested {
            WindowVisibilityState::spec_close_action(self.tray_installed())
        } else if self.asks_for_window(event) {
            self.visibility.spec_show_action()
        } else {
            ShellAction::Nothing
        }
    }

    /// The state after the menu entry with this identifier was activated.
    pub open spec fn dispatch_next(self, identifier: Seq<char>) -> ShellState {
        match spec_event_for(identifier) {
            Some(event) => self.next(event),
            None => self,
        }
    }

    /// What the host has to do after the menu entry with this identifier
    /// was activated.
    pub open spec fn dispatch_action(self, identifier: Seq<char>) -> ShellAction {
        match spec_event_for(identifier) {
            Some(event) => self.action(event),
            None => ShellAction::LogUnhandled,
        }
    }

    /// The state after a sequence of events, handled in order until the
    /// process quits.
    pub open spec fn replay(self, events: Seq<ShellEventView>) -> ShellState
        decreases events.len(),
    {
        if events.len() == 0 || self.exited {
            self
        } else {
            self.next(events[0]).replay(events.skip(1))
        }
    }

    /// The actions that a sequence of events asks of the host, in order,
    /// up to and including the one that ends the process.
    pub open spec fn trace(self, events: Seq<ShellEventView>) -> Seq<ShellAction>
        decreases events.len(),
    {
        if events.len() == 0 || self.exited {
            Seq::empty()
        } else {
            seq![self.action(events[0])] + self.next(events[0]).trace(events.skip(1))
        }
    }
}

/// The single context of the shell: built once at startup and handed to
/// whatever reports an event.
#[derive(Debug, PartialEq, Eq)]
pub struct ShellContext {
    config: ShellConfig,
    phase: ShellPhase,
    visibility: WindowVisibilityState,
    exited: bool,
    hotkey: HotkeyStatus,
}

impl View for ShellContext {
    type V = ShellState;

    closed spec fn view(&self) -> ShellState {
        ShellState {
            config: self.config@,
            phase: self.phase,
            visibility: self.visibility,
            exited: self.exited,
            hotkey: self.hotkey@,
        }
    }
}

impl Clone for ShellContext {
    fn clone(&self) -> (copy: ShellContext)
        ensures
            copy@ == self@,
    {
        ShellContext {
            config: self.config.clone(),
            phase: self.phase,
            visibility: self.visibility,
            exited: self.exited,
            hotkey: self.hotkey.clone(),
        }
    }
}

impl ShellContext {
    /// A context at the start of startup.
    pub fn new(config: ShellConfig) -> (shell: ShellContext)
        ensures
            shell@ == ShellState::initial(config@),
    {
        ShellContext {
            config,
            phase: ShellPhase::BuildingMenu,
            visibility: WindowVisibilityState::initial(),
            exited: false,
            hotkey: HotkeyStatus::Unregistered,
        }
    }

    /// The startup step that the host has to perform now, or `None` once
    /// startup is over.
    pub fn pending(&self) -> (step: Option<StartupAction>)
        ensures
            step == self@.pending(),
    {
        if self.exited {
            None
        } else {
            match self.phase {
                ShellPhase::BuildingMenu => Some(StartupAction::BuildMenu),
                ShellPhase::InstallingTray => Some(StartupAction::InstallTray),
                ShellPhase::GuardingWindow => Some(StartupAction::GuardWindow),
                ShellPhase::RegisteringHotkey => Some(StartupAction::RegisterHotkey),
                ShellPhase::Running => None,
                ShellPhase::Aborted(_) => None,
            }
        }
    }

    /// Takes the host's report on a startup step and returns the step that
    /// is due next.
    pub fn advance(&mut self, event: StartupEvent) -> (step: Option<StartupAction>)
        ensures
            final(self)@ == old(self)@.advance(event),
            step == final(self)@.pending(),
    {
        if !self.exited {
            match (self.phase, event) {
                (ShellPhase::BuildingMenu, StartupEvent::MenuBuilt) => {
                    self.phase = ShellPhase::InstallingTray;
                },
                (ShellPhase::BuildingMenu, StartupEvent::MenuRejected(error)) => {
                    self.phase = ShellPhase::Aborted(StartupError::Menu(error));
                },
                (ShellPhase::InstallingTray, StartupEvent::TrayInstalled) => {
                    self.phase = ShellPhase::GuardingWindow;
                },
                (ShellPhase::InstallingTray, StartupEvent::TrayDenied(error)) => {
                    self.phase = ShellPhase::Aborted(StartupError::Tray(error));
                },
                (ShellPhase::GuardingWindow, StartupEvent::WindowGuarded) => {
                    self.phase = match &self.config.hotkey {
                        HotkeyCapability::Desktop(_) => ShellPhase::RegisteringHotkey,
                        HotkeyCapability::Unavailable => ShellPhase::Running,
                    };
                },
                (ShellPhase::RegisteringHotkey, StartupEvent::HotkeyRegistered) => {
                    let status = match &self.config.hotkey {
                        HotkeyCapability::Desktop(combination) => HotkeyStatus::Registered(
                            GlobalShortcutBinding { combination: combination.clone() },
                        ),
                        HotkeyCapability::Unavailable => HotkeyStatus::Unregistered,
                    };
                    self.phase = ShellPhase::Running;
                    self.hotkey = status;
                },
                (ShellPhase::RegisteringHotkey, StartupEvent::HotkeyRefused(error)) => {
                    self.phase = ShellPhase::Running;
                    self.hotkey = HotkeyStatus::Failed(error);
                },
                _ => {},
            }
        }
        self.pending()
    }

    /// Runs a whole startup against a platform that answers as the script
    /// says: the menu, the tray, the window guard, then the hotkey.
    pub fn start(&mut self, platform: &PlatformScript)
        ensures
            final(self)@ == old(self)@.start(*platform),
    {
        let menu_event = match platform.menu {
            Ok(_) => StartupEvent::MenuBuilt,
            Err(error) => StartupEvent::MenuRejected(error),
        };
        let tray_event = match platform.tray {
            Ok(_) => StartupEvent::TrayInstalled,
            Err(error) => StartupEvent::TrayDenied(error),
        };
        let hotkey_event = match platform.hotkey {
            Ok(_) => StartupEvent::HotkeyRegistered,
            Err(error) => StartupEvent::HotkeyRefused(error),
        };
        self.advance(menu_event);
        self.advance(tray_event);
        self.advance(StartupEvent::WindowGuarded);
        self.advance(hotkey_event);
    }

    /// Handles a request to show the window, unless the process has quit.
    fn show_window(&mut self) -> (action: ShellAction)
        ensures
            final(self)@ == old(self)@.next(ShellEventView::ShowRequested),
            action == old(self)@.action(ShellEventView::ShowRequested),
    {
        if self.exited {
            return ShellAction::Nothing;
        }
        let (visibility, action) = self.visibility.show_requested();
        self.visibility = visibility;
        action
    }

    /// Handles a request to close the window, unless the process has quit.
    fn close_window(&mut self) -> (action: ShellAction)
        ensures
            final(self)@ == old(self)@.next(ShellEventView::CloseRequested),
            action == old(self)@.action(ShellEventView::CloseRequested),
    {
        if self.exited {
            return ShellAction::Nothing;
        }
        let (visibility, action) = self.visibility.close_requested(self.tray_installed());
        self.visibility = visibility;
        action
    }

    /// Handles one event and returns what the host has to do.
    pub fn handle_event(&mut self, event: &ShellEvent) -> (action: ShellAction)
        ensures
            final(self)@ == old(self)@.next(event@),
            action == old(self)@.action(event@),
    {
        match event {
            ShellEvent::QuitRequested => {
                self.exited = true;
                ShellAction::Exit(EXIT_SUCCESS)
            },
            ShellEvent::CloseRequested => self.close_window(),
            ShellEvent::ShowRequested => self.show_window(),
            ShellEvent::HotkeyFired(fired) => {
                if self.hotkey.listens_for(fired) {
                    self.show_window()
                } else {
                    ShellAction::Nothing
                }
            },
        }
    }

    /// Handles the activation of the menu entry with this identifier.
    ///
    /// `show` requests the window and `quit` quits. Any other identifier
    /// changes nothing and is only to be noted in the log.
    pub fn dispatch(&mut self, action_id: &str) -> (action: ShellAction)
        ensures
            final(self)@ == old(self)@.dispatch_next(action_id@),
            action == old(self)@.dispatch_action(action_id@),
    {
        match event_for(action_id) {
            Some(event) => self.handle_event(&event),
            None => ShellAction::LogUnhandled,
        }
    }

    /// Handles the events in order, until they run out or the process
    /// quits, and returns the actions they ask for.
    pub fn replay(&mut self, events: &Vec<ShellEvent>) -> (actions: Vec<ShellAction>)
        ensures
            final(self)@ == old(self)@.replay(events.deep_view()),
            actions@ == old(self)@.trace(events.deep_view()),
    {
        let ghost start = self@;
        let ghost all = events.deep_view();
        let mut actions: Vec<ShellAction> = Vec::new();
        let mut i: usize = 0;
        proof {
            assert(all.skip(0) =~= all);
            assert(actions@ + start.trace(all) =~= start.trace(all));
        }
        while i < events.len() && !self.exited
            invariant
                i <= events.len(),
                all == events.deep_view(),
                start.replay(all) == self@.replay(all.skip(i as int)),
                start.trace(all) == actions@ + self@.trace(all.skip(i as int)),
            decreases events.len() - i,
        {
            let ghost handled = actions@;
            let ghost before = self@;
            let action = self.handle_event(&events[i]);
            actions.push(action);
            proof {
                // One step of the fold: the event at `i` is the head of what is left.
                let rest = all.skip(i as int);
                assert(rest[0] == events[i as int]@);
                assert(rest.skip(1) =~= all.skip(i + 1));
                assert(handled + before.trace(rest) =~= actions@ + self@.trace(all.skip(i + 1)));
            }
            i += 1;
        }
        proof {
            assert(actions@ + self@.trace(all.skip(i as int)) =~= actions@);
        }
        actions
    }

    /// The phase the shell is in.
    pub fn phase(&self) -> (phase: ShellPhase)
        ensures
            phase == self@.phase,
    {
        self.phase
    }

    /// Whether the window is visible or hidden.
    pub fn visibility(&self) -> (visibility: WindowVisibilityState)
        ensures
            visibility == self@.visibility,
    {
        self.visibility
    }

    /// Whether the tray icon is in the notification area, and a close
    /// request therefore intercepted.
    pub fn tray_installed(&self) -> (installed: bool)
        ensures
            installed == self@.tray_installed(),
    {
        match self.phase {
            ShellPhase::GuardingWindow => !self.exited,
            ShellPhase::RegisteringHotkey => !self.exited,
            ShellPhase::Running => !self.exited,
            _ => false,
        }
    }

    /// Whether startup is complete and the process has not quit.
    pub fn is_running(&self) -> (running: bool)
        ensures
            running == self@.running(),
    {
        match self.phase {
            ShellPhase::Running => !self.exited,
            _ => false,
        }
    }

    /// Whether the process has quit.
    pub fn has_exited(&self) -> (exited: bool)
        ensures
            exited == self@.exited,
    {
        self.exited
    }

    /// The exit code, once the process has quit.
    pub fn exit_code(&self) -> (code: Option<i32>)
        ensures
            code == self@.exit_code(),
    {
        if self.exited {
            Some(EXIT_SUCCESS)
        } else {
            None
        }
    }

    /// The error that aborted startup, if one did.
    pub fn startup_error(&self) -> (error: Option<StartupError>)
        ensures
            error == self@.startup_error(),
    {
        match self.phase {
            ShellPhase::Aborted(error) => Some(error),
            _ => None,
        }
    }

    /// How far the registration of the hotkey has come.
    pub fn hotkey_status(&self) -> (status: &HotkeyStatus)
        ensures
            status@ == self@.hotkey,
    {
        &self.hotkey
    }

    /// The configuration the shell was built from.
    pub fn config(&self) -> (config: &ShellConfig)
        ensures
            config@ == self@.config,
    {
        &self.config
    }
}

/// What a run leaves behind: the shell in its last state, and the actions
/// it asked of the host, in order.
#[derive(Debug, PartialEq, Eq)]
pub struct RunOutcome {
    pub shell: ShellContext,
    pub actions: Vec<ShellAction>,
}

/// Runs the shell from startup to its last event, against a platform that
/// answers the startup steps as the script says.
///
/// Startup comes first. Where the menu or the tray fails, the run ends
/// there with that error and no event is handled. Otherwise the events are
/// handled in order until they run out or the process quits.
pub fn run(config: ShellConfig, platform: &PlatformScript, events: &Vec<ShellEvent>) -> (outcome:
    Result<RunOutcome, StartupError>)
    ensures
        ({
            let started = ShellState::initial(config@).start(*platform);
            match outcome {
                Ok(run) => {
                    &&& started.startup_error() is None
                    &&& run.shell@ == started.replay(events.deep_view())
                    &&& run.actions@ == started.trace(events.deep_view())
                },
                Err(error) => started.startup_error() == Some(error),
            }
        }),
{
    let mut shell = ShellContext::new(config);
    shell.start(platform);
    match shell.startup_error() {
        Some(error) => Err(error),
        None => {
            let actions = shell.replay(events);
            Ok(RunOutcome { shell, actions })
        },
    }
}

} // verus!
