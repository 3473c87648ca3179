use tray_shell::error::MenuConstructionError;
use tray_shell::event::ShellEvent;
use tray_shell::menu::{build_menu, Menu, MenuAction, MenuVariant};
use tray_shell::tray::{event_for, ClickPolicy, Glyph, TrayIcon};

#[test]
fn extended_menu_holds_show_then_quit() {
    let menu = build_menu(MenuVariant::Extended);
    assert_eq!(menu.len(), 2);
    assert_eq!(
        menu.actions(),
        &vec![
            MenuAction {
                identifier: String::from("show"),
                label: String::from("Show Window"),
                enabled: true,
            },
            MenuAction {
                identifier: String::from("quit"),
                label: String::from("Quit"),
                enabled: true,
            },
        ]
    );
}

#[test]
fn minimal_menu_holds_quit_alone() {
    let menu = build_menu(MenuVariant::Minimal);
    assert_eq!(menu.len(), 1);
    let only = menu.get(0).unwrap();
    assert_eq!(only.identifier, "quit");
    assert_eq!(only.label, "Quit");
    assert!(only.enabled);
    assert_eq!(menu.get(1), None);
}

#[test]
fn menu_get_follows_the_order_of_the_entries() {
    let menu = build_menu(MenuVariant::Extended);
    assert_eq!(menu.get(0).unwrap().identifier, "show");
    assert_eq!(menu.get(1).unwrap().identifier, "quit");
    assert_eq!(menu.get(2), None);
    assert_eq!(menu.get(usize::MAX), None);
}

#[test]
fn built_menus_have_a_handler_for_every_entry() {
    for variant in [MenuVariant::Minimal, MenuVariant::Extended] {
        let menu = build_menu(variant);
        for action in menu.actions() {
            assert!(event_for(&action.identifier).is_some());
        }
    }
}

#[test]
fn menu_of_distinct_identifiers_is_accepted_in_order() {
    let actions = vec![
        MenuAction::new("show", "Show Window", true),
        MenuAction::new("settings", "Settings", false),
        MenuAction::new("quit", "Quit", true),
    ];
    let menu = Menu::new(actions.clone()).unwrap();
    assert_eq!(menu.len(), 3);
    assert_eq!(menu.actions(), &actions);
    assert_eq!(menu.get(1).unwrap().label, "Settings");
    assert!(!menu.get(1).unwrap().enabled);
}

#[test]
fn empty_menu_is_accepted() {
    let menu = Menu::new(Vec::new()).unwrap();
    assert_eq!(menu.len(), 0);
    assert_eq!(menu.get(0), None);
}

#[test]
fn menu_with_a_repeated_identifier_is_refused() {
    let adjacent = vec![
        MenuAction::new("quit", "Quit", true),
        MenuAction::new("quit", "Leave", true),
    ];
    assert_eq!(Menu::new(adjacent), Err(MenuConstructionError::DuplicateIdentifier));

    let apart = vec![
        MenuAction::new("show", "Show Window", true),
        MenuAction::new("quit", "Quit", true),
        MenuAction::new("show", "Show Again", false),
    ];
    assert_eq!(Menu::new(apart), Err(MenuConstructionError::DuplicateIdentifier));
}

#[test]
fn menu_with_a_repeated_label_is_accepted() {
    let actions = vec![
        MenuAction::new("first", "Same", true),
        MenuAction::new("second", "Same", true),
    ];
    assert!(Menu::new(actions).is_ok());
}

#[test]
fn identifiers_are_compared_by_case() {
    let actions = vec![
        MenuAction::new("quit", "Quit", true),
        MenuAction::new("Quit", "Quit", true),
    ];
    assert_eq!(Menu::new(actions).unwrap().len(), 2);
}

#[test]
fn cloned_menu_equals_the_menu() {
    let menu = build_menu(MenuVariant::Extended);
    let copy = menu.clone();
    assert_eq!(copy, menu);
    assert_eq!(copy.actions(), menu.actions());
}

#[test]
fn dispatch_table_routes_show_and_quit() {
    assert_eq!(event_for("show"), Some(ShellEvent::ShowRequested));
    assert_eq!(event_for("quit"), Some(ShellEvent::QuitRequested));
    assert_eq!(event_for("hide"), None);
    assert_eq!(event_for(""), None);
    assert_eq!(event_for("SHOW"), None);
    assert_eq!(event_for("quit\n"), None);
}

#[test]
fn standard_tray_icon_opens_the_menu_on_left_click() {
    let icon = TrayIcon::standard();
    assert_eq!(icon.glyph, Glyph::DefaultWindowIcon);
    assert_eq!(icon.click_policy, ClickPolicy::ShowMenuOnLeftClick);
    assert!(icon.shows_menu_on_left_click());
    let other = TrayIcon { glyph: Glyph::DefaultWindowIcon, click_policy: ClickPolicy::PlatformDefault };
    assert!(!other.shows_menu_on_left_click());
}
