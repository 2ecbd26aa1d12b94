//! The native menu and the tray: their entries, and what selecting an entry
//! or clicking the tray icon does.

use vstd::prelude::*;
use crate::bridge::ShortcutAction;
use crate::text::str_eq;
use crate::theme::ThemePref;

verus! {

/// One selectable menu entry.
#[derive(Clone, Copy, Debug, PartialEq, Eq)]
pub struct MenuEntry {
    pub id: &'static str,
    pub label: &'static str,
    pub accelerator: Option<&'static str>,
}

/// What a main-menu entry does.
#[derive(Clone, Copy, Debug, PartialEq, Eq, Structural)]
pub enum MenuCommand {
    /// Dispatch a shortcut action to the page.
    Shortcut(ShortcutAction),
    /// Reload the page.
    Reload,
    /// Apply the theme choice and save it.
    SetTheme(ThemePref),
    /// Quit the app.
    Quit,
    /// Not an entry of this menu.
    Ignore,
}

/// What a tray-menu entry does.
#[derive(Clone, Copy, Debug, PartialEq, Eq, Structural)]
pub enum TrayCommand {
    Show,
    Hide,
    Quit,
    Ignore,
}

pub open spec fn menu_command_of(id: Seq<char>) -> MenuCommand {
    if id == "send"@ {
        MenuCommand::Shortcut(ShortcutAction::Send)
    } else if id == "cancel"@ {
        MenuCommand::Shortcut(ShortcutAction::Cancel)
    } else if id == "reload"@ {
        MenuCommand::Reload
    } else if id == "theme_dark"@ {
        MenuCommand::SetTheme(ThemePref::Dark)
    } else if id == "theme_light"@ {
        MenuCommand::SetTheme(ThemePref::Light)
    } else if id == "theme_system"@ {
        MenuCommand::SetTheme(ThemePref::System)
    } else if id == "quit"@ {
        MenuCommand::Quit
    } else {
        MenuCommand::Ignore
    }
}

pub open spec fn tray_command_of(id: Seq<char>) -> TrayCommand {
    if id == "tray_show"@ {
        TrayCommand::Show
    } else if id == "tray_hide"@ {
        TrayCommand::Hide
    } else if id == "tray_quit"@ {
        TrayCommand::Quit
    } else {
        TrayCommand::Ignore
    }
}

/// What selecting the main-menu entry `id` does.
pub fn menu_command(id: &str) -> (r: MenuCommand)
    ensures
        r == menu_command_of(id@),
{
    if str_eq(id, "send") {
        MenuCommand::Shortcut(ShortcutAction::Send)
    } else if str_eq(id, "cancel") {
        MenuCommand::Shortcut(ShortcutAction::Cancel)
    } else if str_eq(id, "reload") {
        MenuCommand::Reload
    } else if str_eq(id, "theme_dark") {
        MenuCommand::SetTheme(ThemePref::Dark)
    } else if str_eq(id, "theme_light") {
        MenuCommand::SetTheme(ThemePref::Light)
    } else if str_eq(id, "theme_system") {
        MenuCommand::SetTheme(ThemePref::System)
    } else if str_eq(id, "quit") {
        MenuCommand::Quit
    } else {
        MenuCommand::Ignore
    }
}

/// What selecting the tray-menu entry `id` does.
pub fn tray_command(id: &str) -> (r: TrayCommand)
    ensures
        r == tray_command_of(id@),
{
    if str_eq(id, "tray_show") {
        TrayCommand::Show
    } else if str_eq(id, "tray_hide") {
        TrayCommand::Hide
    } else if str_eq(id, "tray_quit") {
        TrayCommand::Quit
    } else {
        TrayCommand::Ignore
    }
}


pub open spec fn entry_ids(entries: Seq<MenuEntry>) -> Seq<Seq<char>> {
    Seq::new(entries.len(), |i: int| entries[i].id@)
}

pub open spec fn entry_labels(entries: Seq<MenuEntry>) -> Seq<Seq<char>> {
    Seq::new(entries.len(), |i: int| entries[i].label@)
}

pub open spec fn accel_view(a: Option<&'static str>) -> Option<Seq<char>> {
    match a {
        Some(s) => Some(s@),
        None => None,
    }
}

pub open spec fn entry_accelerators(entries: Seq<MenuEntry>) -> Seq<Option<Seq<char>>> {
    Seq::new(entries.len(), |i: int| accel_view(entries[i].accelerator))
}

/// The main menu's entries, in the order send, cancel, reload, the three
/// theme choices, quit.
pub fn menu_entries() -> (r: Vec<MenuEntry>)
    ensures
        entry_ids(r@) == seq![
            "send"@,
            "cancel"@,
            "reload"@,
            "theme_dark"@,
            "theme_light"@,
            "theme_system"@,
            "quit"@,
        ],
        entry_labels(r@) == seq![
            "发送消息"@,
            "取消当前任务"@,
            "重新加载"@,
            "深色主题"@,
            "浅色主题"@,
            "跟随系统"@,
            "退出"@,
        ],
        entry_accelerators(r@) == seq![
            None,
            None,
            Some("CmdOrCtrl+R"@),
            None,
            None,
            None,
            Some("CmdOrCtrl+Q"@),
        ],
{
    let mut v: Vec<MenuEntry> = Vec::new();
    v.push(MenuEntry { id: "send", label: "发送消息", accelerator: None });
    v.push(MenuEntry { id: "cancel", label: "取消当前任务", accelerator: None });
    v.push(MenuEntry { id: "reload", label: "重新加载", accelerator: Some("CmdOrCtrl+R") });
    v.push(MenuEntry { id: "theme_dark", label: "深色主题", accelerator: None });
    v.push(MenuEntry { id: "theme_light", label: "浅色主题", accelerator: None });
    v.push(MenuEntry { id: "theme_system", label: "跟随系统", accelerator: None });
    v.push(MenuEntry { id: "quit", label: "退出", accelerator: Some("CmdOrCtrl+Q") });
    assert(entry_ids(v@) =~= seq![
        "send"@,
        "cancel"@,
        "reload"@,
        "theme_dark"@,
        "theme_light"@,
        "theme_system"@,
        "quit"@,
    ]);
    assert(entry_labels(v@) =~= seq![
        "发送消息"@,
        "取消当前任务"@,
        "重新加载"@,
        "深色主题"@,
        "浅色主题"@,
        "跟随系统"@,
        "退出"@,
    ]);
    assert(entry_accelerators(v@) =~= seq![
        None,
        None,
        Some("CmdOrCtrl+R"@),
        None,
        None,
        None,
        Some("CmdOrCtrl+Q"@),
    ]);
    v
}

/// The tray menu's entries: show, hide, quit (a separator precedes quit).
pub fn tray_entries() -> (r: Vec<MenuEntry>)
    ensures
        entry_ids(r@) == seq!["tray_show"@, "tray_hide"@, "tray_quit"@],
        entry_labels(r@) == seq!["显示窗口"@, "隐藏到托盘"@, "退出"@],
        entry_accelerators(r@) == seq![None::<Seq<char>>, None, None],
{
    let mut v: Vec<MenuEntry> = Vec::new();
    v.push(MenuEntry { id: "tray_show", label: "显示窗口", accelerator: None });
    v.push(MenuEntry { id: "tray_hide", label: "隐藏到托盘", accelerator: None });
    v.push(MenuEntry { id: "tray_quit", label: "退出", accelerator: None });
    assert(entry_ids(v@) =~= seq!["tray_show"@, "tray_hide"@, "tray_quit"@]);
    assert(entry_labels(v@) =~= seq!["显示窗口"@, "隐藏到托盘"@, "退出"@]);
    assert(entry_accelerators(v@) =~= seq![None::<Seq<char>>, None, None]);
    v
}

/// Every entry the menus offer does what its label says, and none is ignored
/// when selected.
pub proof fn lemma_every_entry_dispatches(menu: Seq<MenuEntry>, tray: Seq<MenuEntry>)
    requires
        entry_ids(menu) == seq![
            "send"@,
            "cancel"@,
            "reload"@,
            "theme_dark"@,
            "theme_light"@,
            "theme_system"@,
            "quit"@,
        ],
        entry_ids(tray) == seq!["tray_show"@, "tray_hide"@, "tray_quit"@],
    ensures
        forall|i: int| 0 <= i < menu.len() ==> menu_command_of(#[trigger] menu[i].id@)
            != MenuCommand::Ignore,
        forall|i: int| 0 <= i < tray.len() ==> tray_command_of(#[trigger] tray[i].id@)
            != TrayCommand::Ignore,
        menu_command_of(menu[0].id@) == MenuCommand::Shortcut(ShortcutAction::Send),
        menu_command_of(menu[1].id@) == MenuCommand::Shortcut(ShortcutAction::Cancel),
        menu_command_of(menu[2].id@) == MenuCommand::Reload,
        menu_command_of(menu[3].id@) == MenuCommand::SetTheme(ThemePref::Dark),
        menu_command_of(menu[4].id@) == MenuCommand::SetTheme(ThemePref::Light),
        menu_command_of(menu[5].id@) == MenuCommand::SetTheme(ThemePref::System),
        menu_command_of(menu[6].id@) == MenuCommand::Quit,
        tray_command_of(tray[0].id@) == TrayCommand::Show,
        tray_command_of(tray[1].id@) == TrayCommand::Hide,
        tray_command_of(tray[2].id@) == TrayCommand::Quit,
{
    reveal_strlit("send");
    reveal_strlit("cancel");
    reveal_strlit("reload");
    reveal_strlit("theme_dark");
    reveal_strlit("theme_light");
    reveal_strlit("theme_system");
    reveal_strlit("quit");
    reveal_strlit("tray_show");
    reveal_strlit("tray_hide");
    reveal_strlit("tray_quit");
    assert("send"@.len() == 4 && "cancel"@.len() == 6 && "reload"@.len() == 6);
    assert("theme_dark"@.len() == 10 && "theme_light"@.len() == 11 && "theme_system"@.len() == 12);
    assert("quit"@.len() == 4 && "tray_show"@.len() == 9 && "tray_hide"@.len() == 9);
    assert("tray_quit"@.len() == 9);
    assert("reload"@[0] != "cancel"@[0]);
    assert("quit"@[0] != "send"@[0]);
    assert("tray_hide"@[5] != "tray_show"@[5]);
    assert("tray_quit"@[5] != "tray_show"@[5]);
    assert("tray_quit"@[5] != "tray_hide"@[5]);
    assert("send"@ != "cancel"@);
    assert(entry_ids(menu).len() == 7 && entry_ids(tray).len() == 3);
    assert(entry_ids(menu)[0] == menu[0].id@ && entry_ids(menu)[1] == menu[1].id@);
    assert(entry_ids(menu)[2] == menu[2].id@ && entry_ids(menu)[3] == menu[3].id@);
    assert(entry_ids(menu)[4] == menu[4].id@ && entry_ids(menu)[5] == menu[5].id@);
    assert(entry_ids(menu)[6] == menu[6].id@);
    assert(entry_ids(tray)[0] == tray[0].id@ && entry_ids(tray)[1] == tray[1].id@);
    assert(entry_ids(tray)[2] == tray[2].id@);
    assert forall|i: int| 0 <= i < menu.len() implies menu_command_of(#[trigger] menu[i].id@)
        != MenuCommand::Ignore by {
        assert(entry_ids(menu)[i] == menu[i].id@);
        assert(entry_ids(menu).len() == 7);
        if i == 0 {
        } else if i == 1 {
        } else if i == 2 {
        } else if i == 3 {
        } else if i == 4 {
        } else if i == 5 {
        } else {
            assert(i == 6);
        }
    }
    assert forall|i: int| 0 <= i < tray.len() implies tray_command_of(#[trigger] tray[i].id@)
        != TrayCommand::Ignore by {
        assert(entry_ids(tray)[i] == tray[i].id@);
        assert(entry_ids(tray).len() == 3);
        if i == 0 {
        } else if i == 1 {
        } else {
            assert(i == 2);
        }
    }
}

/// A mouse button on the tray icon.
#[derive(Clone, Copy, Debug, PartialEq, Eq, Structural)]
pub enum MouseButton {
    Left,
    Right,
    Middle,
}

/// Whether the button went down or came up.
#[derive(Clone, Copy, Debug, PartialEq, Eq, Structural)]
pub enum ButtonState {
    Up,
    Down,
}

/// An event on the tray icon.
#[derive(Clone, Copy, Debug, PartialEq, Eq, Structural)]
pub enum TrayEvent {
    Click { button: MouseButton, state: ButtonState },
    /// Any other pointer event (enter, move, leave, double click).
    Other,
}

/// The main window as the tray handler finds it.
#[derive(Clone, Copy, Debug, PartialEq, Eq, Structural)]
pub enum WindowVisibility {
    /// There is no main window.
    Missing,
    Visible,
    Hidden,
    /// Its visibility could not be read.
    Unknown,
}

/// What a tray-icon event does to the main window.
#[derive(Clone, Copy, Debug, PartialEq, Eq, Structural)]
pub enum WindowToggle {
    /// Show, unminimize and focus it.
    Show,
    Hide,
    Nothing,
}

/// A left click (on release) toggles the main window: a visible window is
/// hidden, any other is shown; other events do nothing.
pub open spec fn tray_toggle_of(event: TrayEvent, window: WindowVisibility) -> WindowToggle {
    match event {
        TrayEvent::Click { button: MouseButton::Left, state: ButtonState::Up } => match window {
            WindowVisibility::Missing => WindowToggle::Nothing,
            WindowVisibility::Visible => WindowToggle::Hide,
            _ => WindowToggle::Show,
        },
        _ => WindowToggle::Nothing,
    }
}

/// What a tray-icon event does to the main window.
pub fn tray_toggle(event: TrayEvent, window: WindowVisibility) -> (r: WindowToggle)
    ensures
        r == tray_toggle_of(event, window),
{
    match event {
        TrayEvent::Click { button: MouseButton::Left, state: ButtonState::Up } => match window {
            WindowVisibility::Missing => WindowToggle::Nothing,
            WindowVisibility::Visible => WindowToggle::Hide,
            _ => WindowToggle::Show,
        },
        _ => WindowToggle::Nothing,
    }
}


/// Only the release of the left button toggles the window: every other tray
/// event leaves it alone, whatever its visibility. On a left release a visible
/// window is hidden, a hidden or unknown one is shown, a missing one is left.
pub proof fn lemma_tray_only_left_release_toggles(event: TrayEvent, window: WindowVisibility)
    ensures
        event != (TrayEvent::Click { button: MouseButton::Left, state: ButtonState::Up })
            ==> tray_toggle_of(event, window) == WindowToggle::Nothing,
        event == (TrayEvent::Click { button: MouseButton::Left, state: ButtonState::Up }) ==> (
        tray_toggle_of(event, window) == WindowToggle::Hide <==> window == WindowVisibility::Visible),
        event == (TrayEvent::Click { button: MouseButton::Left, state: ButtonState::Up }) ==> (
        tray_toggle_of(event, window) == WindowToggle::Show <==> (window == WindowVisibility::Hidden
            || window == WindowVisibility::Unknown)),
        tray_toggle_of(event, WindowVisibility::Missing) == WindowToggle::Nothing,
{
}

} // verus!
