use deepseek_harness_desktop::launch::{
    dir_or_current, DirChoice, CURRENT_DIR,
    ready_script, server_args, server_url, spawn_failed_script, status_script, timeout_script,
    LOG_FILE_NAME, READY_TIMEOUT_MS, SERVER_HOST,
};
use deepseek_harness_desktop::port::{find_free_port, resolve_port, PortRequest, DEFAULT_PORT};
use deepseek_harness_desktop::text::decimal_string;
use deepseek_harness_desktop::theme::{parse_theme_pref, theme_pref_name, ThemePref, THEME_FILE_NAME};

#[test]
fn theme_names_are_the_stored_words() {
    assert_eq!(theme_pref_name(ThemePref::Dark), "dark");
    assert_eq!(theme_pref_name(ThemePref::Light), "light");
    assert_eq!(theme_pref_name(ThemePref::System), "system");
    assert_eq!(THEME_FILE_NAME, "theme.txt");
}

#[test]
fn theme_is_restored_from_file_contents() {
    assert_eq!(parse_theme_pref(Some("dark")), ThemePref::Dark);
    assert_eq!(parse_theme_pref(Some("  light\n")), ThemePref::Light);
    assert_eq!(parse_theme_pref(Some("system")), ThemePref::System);
    assert_eq!(parse_theme_pref(Some("Dark")), ThemePref::System);
    assert_eq!(parse_theme_pref(Some("")), ThemePref::System);
    assert_eq!(parse_theme_pref(Some("dark mode")), ThemePref::System);
    assert_eq!(parse_theme_pref(None), ThemePref::System);
}

#[test]
fn saved_theme_restores_the_same_choice() {
    for p in [ThemePref::Dark, ThemePref::Light, ThemePref::System] {
        assert_eq!(parse_theme_pref(Some(theme_pref_name(p))), p);
    }
}

#[test]
fn port_from_environment() {
    assert_eq!(resolve_port(None), PortRequest::FindFree { preferred: 3080 });
    assert_eq!(resolve_port(Some("8090")), PortRequest::Fixed(8090));
    assert_eq!(resolve_port(Some(" 8090\n")), PortRequest::Fixed(8090));
    assert_eq!(resolve_port(Some("+8090")), PortRequest::Fixed(8090));
    assert_eq!(resolve_port(Some("0")), PortRequest::FindFree { preferred: DEFAULT_PORT });
    assert_eq!(resolve_port(Some("")), PortRequest::FindFree { preferred: 3080 });
    assert_eq!(resolve_port(Some("abc")), PortRequest::FindFree { preferred: 3080 });
    assert_eq!(resolve_port(Some("70000")), PortRequest::FindFree { preferred: 3080 });
    assert_eq!(resolve_port(Some("-1")), PortRequest::FindFree { preferred: 3080 });
}

#[test]
fn every_nonzero_port_text_selects_that_port() {
    for n in 1..=u16::MAX {
        assert_eq!(resolve_port(Some(&decimal_string(n))), PortRequest::Fixed(n));
    }
}

#[test]
fn free_port_choice() {
    assert_eq!(find_free_port(3080, true, None), 3080);
    assert_eq!(find_free_port(3080, true, Some(41000)), 3080);
    assert_eq!(find_free_port(3080, false, Some(41000)), 41000);
    assert_eq!(find_free_port(3080, false, None), 3080);
}

#[test]
fn server_command_line() {
    assert_eq!(server_args(3080), vec!["web", "--host", "127.0.0.1", "--port", "3080"]);
    assert_eq!(server_args(8), vec!["web", "--host", "127.0.0.1", "--port", "8"]);
    assert_eq!(server_url(3080), "http://127.0.0.1:3080");
    assert_eq!(server_url(65535), "http://127.0.0.1:65535");
    assert_eq!(SERVER_HOST, "127.0.0.1");
    assert_eq!(LOG_FILE_NAME, "dsh.log");
    assert_eq!(READY_TIMEOUT_MS, 60_000);
}

#[test]
fn start_page_status_scripts() {
    assert_eq!(
        spawn_failed_script(),
        "window.dispatchEvent(new CustomEvent('dsh-status', { detail: { phase: 'error', message: '启动服务失败：未找到 Node.js，请安装或设置 DSH_NODE_BIN' } }));"
    );
    assert_eq!(
        timeout_script(),
        "window.dispatchEvent(new CustomEvent('dsh-status', { detail: { phase: 'error', message: '服务启动超时' } }));"
    );
    let port = 3080;
    let url = format!("http://127.0.0.1:{port}");
    let expected = format!(
        "window.dispatchEvent(new CustomEvent('dsh-status', {{ detail: {{ phase: 'ready', message: '服务已就绪' }} }})); window.location.replace('{url}');"
    );
    assert_eq!(ready_script(port), expected);
    assert_eq!(
        status_script("boot", "x"),
        "window.dispatchEvent(new CustomEvent('dsh-status', { detail: { phase: 'boot', message: 'x' } }));"
    );
}

#[test]
fn server_directory_falls_back_to_current_dir() {
    assert_eq!(dir_or_current(Some("/data/app")), DirChoice::Resolved("/data/app"));
    assert_eq!(dir_or_current::<&str>(None), DirChoice::Fallback("."));
    assert_eq!(CURRENT_DIR, ".");
}
