use deepseek_harness_desktop::bridge::{shortcut_script, ShortcutAction};
use deepseek_harness_desktop::menu::{
    menu_command, menu_entries, tray_command, tray_entries, tray_toggle, ButtonState, MenuCommand,
    MouseButton, TrayCommand, TrayEvent, WindowToggle, WindowVisibility,
};
use deepseek_harness_desktop::navigation::{handle_navigation, Navigation, NavigationTarget};
use deepseek_harness_desktop::state::{quit_app, AppState, CloseDecision};
use deepseek_harness_desktop::theme::ThemePref;

fn nav(scheme: &str, host: Option<&str>) -> Navigation {
    handle_navigation(&NavigationTarget {
        scheme: scheme.to_string(),
        host: host.map(|h| h.to_string()),
    })
}

#[test]
fn navigation_allows_app_and_local_pages() {
    assert_eq!(nav("tauri", Some("localhost")), Navigation::Allow);
    assert_eq!(nav("tauri", None), Navigation::Allow);
    assert_eq!(nav("http", Some("127.0.0.1")), Navigation::Allow);
    assert_eq!(nav("http", Some("localhost")), Navigation::Allow);
    assert_eq!(nav("https", Some("localhost")), Navigation::Allow);
    assert_eq!(nav("http", Some("ipc.localhost")), Navigation::Allow);
    assert!(nav("http", Some("127.0.0.1")).permits());
}

#[test]
fn navigation_sends_other_web_pages_out() {
    assert_eq!(nav("https", Some("github.com")), Navigation::OpenExternal);
    assert_eq!(nav("http", Some("127.0.0.2")), Navigation::OpenExternal);
    assert_eq!(nav("http", Some("localhost.evil.com")), Navigation::OpenExternal);
    assert_eq!(nav("http", None), Navigation::OpenExternal);
    assert!(!nav("https", Some("github.com")).permits());
}

#[test]
fn navigation_refuses_other_schemes() {
    assert_eq!(nav("data", None), Navigation::Deny);
    assert_eq!(nav("file", Some("localhost")), Navigation::Deny);
    assert_eq!(nav("about", None), Navigation::Deny);
    assert_eq!(nav("javascript", None), Navigation::Deny);
    assert_eq!(nav("ws", Some("127.0.0.1")), Navigation::Deny);
    assert!(!nav("data", None).permits());
}

#[test]
fn shortcut_scripts() {
    assert_eq!(ShortcutAction::Send.name(), "send");
    assert_eq!(ShortcutAction::Cancel.name(), "cancel");
    for action in ["send", "cancel"] {
        let expected = format!(
            "window.dispatchEvent(new CustomEvent('dsh-shortcut', {{ detail: {{ action: '{}' }} }}));",
            action
        );
        assert_eq!(shortcut_script(action), expected);
    }
}

#[test]
fn menu_dispatch() {
    assert_eq!(menu_command("send"), MenuCommand::Shortcut(ShortcutAction::Send));
    assert_eq!(menu_command("cancel"), MenuCommand::Shortcut(ShortcutAction::Cancel));
    assert_eq!(menu_command("reload"), MenuCommand::Reload);
    assert_eq!(menu_command("theme_dark"), MenuCommand::SetTheme(ThemePref::Dark));
    assert_eq!(menu_command("theme_light"), MenuCommand::SetTheme(ThemePref::Light));
    assert_eq!(menu_command("theme_system"), MenuCommand::SetTheme(ThemePref::System));
    assert_eq!(menu_command("quit"), MenuCommand::Quit);
    assert_eq!(menu_command("tray_quit"), MenuCommand::Ignore);
    assert_eq!(menu_command(""), MenuCommand::Ignore);
    assert_eq!(tray_command("tray_show"), TrayCommand::Show);
    assert_eq!(tray_command("tray_hide"), TrayCommand::Hide);
    assert_eq!(tray_command("tray_quit"), TrayCommand::Quit);
    assert_eq!(tray_command("quit"), TrayCommand::Ignore);
}

#[test]
fn every_menu_entry_is_handled() {
    let entries = menu_entries();
    let ids: Vec<&str> = entries.iter().map(|e| e.id).collect();
    assert_eq!(ids, ["send", "cancel", "reload", "theme_dark", "theme_light", "theme_system", "quit"]);
    for e in &entries {
        assert_ne!(menu_command(e.id), MenuCommand::Ignore);
    }
    assert_eq!(entries[2].accelerator, Some("CmdOrCtrl+R"));
    assert_eq!(entries[6].accelerator, Some("CmdOrCtrl+Q"));
    assert_eq!(entries[0].label, "发送消息");
    let tray = tray_entries();
    let ids: Vec<&str> = tray.iter().map(|e| e.id).collect();
    assert_eq!(ids, ["tray_show", "tray_hide", "tray_quit"]);
    for e in &tray {
        assert_ne!(tray_command(e.id), TrayCommand::Ignore);
    }
}

#[test]
fn tray_click_toggles_window() {
    let left_up = TrayEvent::Click { button: MouseButton::Left, state: ButtonState::Up };
    assert_eq!(tray_toggle(left_up, WindowVisibility::Visible), WindowToggle::Hide);
    assert_eq!(tray_toggle(left_up, WindowVisibility::Hidden), WindowToggle::Show);
    assert_eq!(tray_toggle(left_up, WindowVisibility::Unknown), WindowToggle::Show);
    assert_eq!(tray_toggle(left_up, WindowVisibility::Missing), WindowToggle::Nothing);
    let left_down = TrayEvent::Click { button: MouseButton::Left, state: ButtonState::Down };
    assert_eq!(tray_toggle(left_down, WindowVisibility::Visible), WindowToggle::Nothing);
    let right_up = TrayEvent::Click { button: MouseButton::Right, state: ButtonState::Up };
    assert_eq!(tray_toggle(right_up, WindowVisibility::Hidden), WindowToggle::Nothing);
    assert_eq!(tray_toggle(TrayEvent::Other, WindowVisibility::Hidden), WindowToggle::Nothing);
}

#[test]
fn closing_hides_until_quit() {
    let mut state: AppState<u32> = AppState::new();
    assert_eq!(state.dsh, None);
    assert!(!state.quitting);
    assert_eq!(state.close_requested(), CloseDecision::HideToTray);
    state.install_server(7);
    assert_eq!(state.close_requested(), CloseDecision::HideToTray);
    assert_eq!(quit_app(&mut state), 0);
    assert!(state.quitting);
    assert_eq!(state.dsh, Some(7));
    assert_eq!(state.close_requested(), CloseDecision::Close);
    assert_eq!(state.take_server(), Some(7));
    assert_eq!(state.take_server(), None);
    assert_eq!(state.close_requested(), CloseDecision::Close);
}
