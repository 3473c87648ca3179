use tray_shell::error::{
    HotkeyRegistrationError, MenuConstructionError, StartupError, TrayInstallError,
};
use tray_shell::event::{ShellAction, ShellEvent, StartupAction, StartupEvent};
use tray_shell::hotkey::{GlobalShortcutBinding, HotkeyCapability, HotkeyStatus, KeyCombination};
use tray_shell::menu::{build_menu, MenuVariant};
use tray_shell::shell::{PlatformScript, ShellConfig, ShellContext, ShellPhase};
use tray_shell::tray::TrayIcon;
use tray_shell::window::WindowVisibilityState;

#[test]
fn new_context_is_visible_alive_and_waits_for_the_menu() {
    let shell = ShellContext::new(ShellConfig::desktop());
    assert_eq!(shell.phase(), ShellPhase::BuildingMenu);
    assert_eq!(shell.pending(), Some(StartupAction::BuildMenu));
    assert_eq!(shell.visibility(), WindowVisibilityState::Visible);
    assert!(!shell.has_exited());
    assert_eq!(shell.exit_code(), None);
    assert!(!shell.is_running());
    assert!(!shell.tray_installed());
    assert_eq!(shell.startup_error(), None);
    assert_eq!(shell.hotkey_status(), &HotkeyStatus::Unregistered);
    assert_eq!(shell.config(), &ShellConfig::desktop());
}

#[test]
fn startup_goes_menu_tray_guard_hotkey() {
    let mut shell = ShellContext::new(ShellConfig::desktop());
    assert_eq!(shell.advance(StartupEvent::MenuBuilt), Some(StartupAction::InstallTray));
    assert_eq!(shell.phase(), ShellPhase::InstallingTray);
    assert!(!shell.tray_installed());

    assert_eq!(shell.advance(StartupEvent::TrayInstalled), Some(StartupAction::GuardWindow));
    assert_eq!(shell.phase(), ShellPhase::GuardingWindow);
    assert!(shell.tray_installed());

    assert_eq!(shell.advance(StartupEvent::WindowGuarded), Some(StartupAction::RegisterHotkey));
    assert_eq!(shell.phase(), ShellPhase::RegisteringHotkey);
    assert!(!shell.is_running());

    assert_eq!(shell.advance(StartupEvent::HotkeyRegistered), None);
    assert_eq!(shell.phase(), ShellPhase::Running);
    assert!(shell.is_running());
    assert_eq!(shell.pending(), None);
    assert_eq!(
        shell.hotkey_status(),
        &HotkeyStatus::Registered(GlobalShortcutBinding {
            combination: KeyCombination::show_window(),
        })
    );
}

#[test]
fn startup_without_hotkey_subsystem_skips_the_hotkey() {
    let mut shell = ShellContext::new(ShellConfig::without_hotkey());
    shell.advance(StartupEvent::MenuBuilt);
    shell.advance(StartupEvent::TrayInstalled);
    assert_eq!(shell.advance(StartupEvent::WindowGuarded), None);
    assert!(shell.is_running());
    assert_eq!(shell.hotkey_status(), &HotkeyStatus::Unregistered);

    shell.handle_event(&ShellEvent::CloseRequested);
    let fired = ShellEvent::HotkeyFired(KeyCombination::show_window());
    assert_eq!(shell.handle_event(&fired), ShellAction::Nothing);
    assert_eq!(shell.visibility(), WindowVisibilityState::Hidden);
}

#[test]
fn rejected_menu_aborts_startup() {
    let mut shell = ShellContext::new(ShellConfig::desktop());
    let next = shell.advance(StartupEvent::MenuRejected(MenuConstructionError::PlatformRejected));
    assert_eq!(next, None);
    assert_eq!(
        shell.startup_error(),
        Some(StartupError::Menu(MenuConstructionError::PlatformRejected))
    );
    assert!(!shell.tray_installed());
    assert_eq!(shell.advance(StartupEvent::TrayInstalled), None);
    assert_eq!(
        shell.phase(),
        ShellPhase::Aborted(StartupError::Menu(MenuConstructionError::PlatformRejected))
    );
}

#[test]
fn each_tray_failure_aborts_startup_with_itself() {
    for error in [
        TrayInstallError::NoTraySupport,
        TrayInstallError::IconMissing,
        TrayInstallError::Denied,
    ] {
        let mut shell = ShellContext::new(ShellConfig::desktop());
        shell.advance(StartupEvent::MenuBuilt);
        assert_eq!(shell.advance(StartupEvent::TrayDenied(error)), None);
        assert_eq!(shell.startup_error(), Some(StartupError::Tray(error)));
        assert_eq!(shell.handle_event(&ShellEvent::CloseRequested), ShellAction::AllowClose);
    }
}

#[test]
fn each_hotkey_failure_is_recorded_and_startup_completes() {
    for error in [HotkeyRegistrationError::AlreadyClaimed, HotkeyRegistrationError::Unsupported] {
        let mut shell = ShellContext::new(ShellConfig::desktop());
        shell.advance(StartupEvent::MenuBuilt);
        shell.advance(StartupEvent::TrayInstalled);
        shell.advance(StartupEvent::WindowGuarded);
        assert_eq!(shell.advance(StartupEvent::HotkeyRefused(error)), None);
        assert!(shell.is_running());
        assert_eq!(shell.startup_error(), None);
        assert_eq!(shell.hotkey_status(), &HotkeyStatus::Failed(error));
    }
}

#[test]
fn report_out_of_turn_is_ignored() {
    let mut shell = ShellContext::new(ShellConfig::desktop());
    let fresh = shell.clone();
    for event in [
        StartupEvent::TrayInstalled,
        StartupEvent::TrayDenied(TrayInstallError::Denied),
        StartupEvent::WindowGuarded,
        StartupEvent::HotkeyRegistered,
        StartupEvent::HotkeyRefused(HotkeyRegistrationError::Unsupported),
    ] {
        assert_eq!(shell.advance(event), Some(StartupAction::BuildMenu));
        assert_eq!(shell, fresh);
    }

    shell.start(&PlatformScript::cooperative());
    let running = shell.clone();
    for event in [
        StartupEvent::MenuBuilt,
        StartupEvent::MenuRejected(MenuConstructionError::DuplicateIdentifier),
        StartupEvent::TrayDenied(TrayInstallError::IconMissing),
        StartupEvent::HotkeyRefused(HotkeyRegistrationError::AlreadyClaimed),
    ] {
        assert_eq!(shell.advance(event), None);
        assert_eq!(shell, running);
    }
}

#[test]
fn close_before_the_tray_is_installed_goes_to_the_platform() {
    let mut shell = ShellContext::new(ShellConfig::desktop());
    assert_eq!(shell.handle_event(&ShellEvent::CloseRequested), ShellAction::AllowClose);
    shell.advance(StartupEvent::MenuBuilt);
    assert!(!shell.tray_installed());
    assert_eq!(shell.handle_event(&ShellEvent::CloseRequested), ShellAction::AllowClose);
    assert_eq!(shell.visibility(), WindowVisibilityState::Visible);
    shell.advance(StartupEvent::TrayInstalled);
    assert!(shell.tray_installed());
    assert_eq!(shell.handle_event(&ShellEvent::CloseRequested), ShellAction::HideWindow);
    assert_eq!(shell.visibility(), WindowVisibilityState::Hidden);
}

#[test]
fn quit_during_startup_ends_startup() {
    let mut shell = ShellContext::new(ShellConfig::desktop());
    shell.advance(StartupEvent::MenuBuilt);
    assert_eq!(shell.handle_event(&ShellEvent::QuitRequested), ShellAction::Exit(0));
    assert_eq!(shell.pending(), None);
    assert_eq!(shell.advance(StartupEvent::TrayInstalled), None);
    assert_eq!(shell.phase(), ShellPhase::InstallingTray);
    assert_eq!(shell.exit_code(), Some(0));
}

#[test]
fn custom_configuration_binds_its_own_combination() {
    let combination = KeyCombination::new(false, false, true, false, "KeyK");
    let config = ShellConfig::new(
        build_menu(MenuVariant::Minimal),
        TrayIcon::standard(),
        HotkeyCapability::Desktop(combination.clone()),
    );
    assert_eq!(config.menu.len(), 1);
    assert_eq!(config.clone(), config);
    let mut shell = ShellContext::new(config);
    shell.start(&PlatformScript::cooperative());
    assert_eq!(
        shell.hotkey_status(),
        &HotkeyStatus::Registered(GlobalShortcutBinding { combination: combination.clone() })
    );
    shell.handle_event(&ShellEvent::CloseRequested);
    let default = ShellEvent::HotkeyFired(KeyCombination::show_window());
    assert_eq!(shell.handle_event(&default), ShellAction::Nothing);
    assert_eq!(shell.handle_event(&ShellEvent::HotkeyFired(combination)), ShellAction::ShowWindow);
    assert_eq!(shell.dispatch("show"), ShellAction::Nothing);
}

#[test]
fn desktop_configuration_has_the_extended_menu_and_the_default_hotkey() {
    let config = ShellConfig::desktop();
    assert_eq!(config.menu, build_menu(MenuVariant::Extended));
    assert_eq!(config.tray, TrayIcon::standard());
    assert_eq!(config.hotkey, HotkeyCapability::Desktop(KeyCombination::show_window()));
    let plain = ShellConfig::without_hotkey();
    assert_eq!(plain.menu, build_menu(MenuVariant::Extended));
    assert_eq!(plain.tray, TrayIcon::standard());
    assert_eq!(plain.hotkey, HotkeyCapability::Unavailable);
}

#[test]
fn scripted_start_equals_stepwise_start() {
    let platform = PlatformScript {
        menu: Ok(()),
        tray: Ok(()),
        hotkey: Err(HotkeyRegistrationError::Unsupported),
    };
    let mut scripted = ShellContext::new(ShellConfig::desktop());
    scripted.start(&platform);
    let mut stepwise = ShellContext::new(ShellConfig::desktop());
    stepwise.advance(StartupEvent::MenuBuilt);
    stepwise.advance(StartupEvent::TrayInstalled);
    stepwise.advance(StartupEvent::WindowGuarded);
    stepwise.advance(StartupEvent::HotkeyRefused(HotkeyRegistrationError::Unsupported));
    assert_eq!(scripted, stepwise);
}

#[test]
fn error_diagnostics_name_the_failure() {
    assert_eq!(
        MenuConstructionError::DuplicateIdentifier.describe(),
        "menu construction failed: duplicate action identifier"
    );
    assert_eq!(
        MenuConstructionError::PlatformRejected.describe(),
        "menu construction failed: the platform rejected a menu item"
    );
    assert_eq!(
        TrayInstallError::NoTraySupport.describe(),
        "tray installation failed: no tray support"
    );
    assert_eq!(
        TrayInstallError::IconMissing.describe(),
        "tray installation failed: icon resource missing"
    );
    assert_eq!(
        TrayInstallError::Denied.describe(),
        "tray installation failed: registration denied"
    );
    assert_eq!(
        HotkeyRegistrationError::AlreadyClaimed.describe(),
        "hotkey registration failed: combination already claimed"
    );
    assert_eq!(
        HotkeyRegistrationError::Unsupported.describe(),
        "hotkey registration failed: combination unsupported"
    );
    assert_eq!(
        StartupError::Menu(MenuConstructionError::PlatformRejected).describe(),
        MenuConstructionError::PlatformRejected.describe()
    );
    assert_eq!(
        StartupError::Tray(TrayInstallError::IconMissing).describe(),
        TrayInstallError::IconMissing.describe()
    );
}
