use disasterconnect_shell::escape_single_quotes;
use disasterconnect_shell::greet;
use disasterconnect_shell::handle_deep_link;
use disasterconnect_shell::handle_menu_event;
use disasterconnect_shell::handle_tray_icon_event;
use disasterconnect_shell::parse_menu_id;
use disasterconnect_shell::plugin_registration_order;
use disasterconnect_shell::tray_menu_entries;
use disasterconnect_shell::tray_tooltip;
use disasterconnect_shell::MenuAction;
use disasterconnect_shell::MenuEntry;
use disasterconnect_shell::Plugin;
use disasterconnect_shell::TrayIconInteraction;
use disasterconnect_shell::WindowDirective;

#[test]
fn greet_world() {
    assert_eq!(greet("World"), "Hello, World! You've been greeted from Rust!");
}

#[test]
fn greet_empty_name() {
    assert_eq!(greet(""), "Hello, ! You've been greeted from Rust!");
}

#[test]
fn escape_leaves_plain_url_unchanged() {
    assert_eq!(
        escape_single_quotes("https://example.com/a?b=c#d"),
        "https://example.com/a?b=c#d"
    );
}

#[test]
fn escape_single_quote() {
    assert_eq!(escape_single_quotes("a'b"), "a\\'b");
}

#[test]
fn escape_adjacent_quotes() {
    assert_eq!(escape_single_quotes("''"), "\\'\\'");
}

#[test]
fn escape_empty_string() {
    assert_eq!(escape_single_quotes(""), "");
}

#[test]
fn deep_link_selects_first_url() {
    let payload = "[\"app://auth/callback#token=1\",\"https://second.example\"]";
    match handle_deep_link(payload) {
        WindowDirective::RevealAndRun { script } => {
            assert_eq!(
                script,
                "window.__DEEP_LINK_URL__ = 'app://auth/callback#token=1'; \
                 window.dispatchEvent(new CustomEvent('deep-link', \
                 { detail: 'app://auth/callback#token=1' }));"
            );
        }
        _ => panic!("expected a reveal-and-run directive"),
    }
}

#[test]
fn deep_link_empty_array_ignored() {
    assert!(matches!(handle_deep_link("[]"), WindowDirective::Ignore));
}

#[test]
fn deep_link_malformed_payload_ignored() {
    assert!(matches!(handle_deep_link("not json"), WindowDirective::Ignore));
    assert!(matches!(handle_deep_link("{\"url\": 3}"), WindowDirective::Ignore));
    assert!(matches!(handle_deep_link("[1, 2]"), WindowDirective::Ignore));
}

#[test]
fn deep_link_escapes_single_quotes() {
    let payload = "[\"app://x?note=it's\"]";
    match handle_deep_link(payload) {
        WindowDirective::RevealAndRun { script } => {
            assert_eq!(
                script,
                "window.__DEEP_LINK_URL__ = 'app://x?note=it\\'s'; \
                 window.dispatchEvent(new CustomEvent('deep-link', \
                 { detail: 'app://x?note=it\\'s' }));"
            );
        }
        _ => panic!("expected a reveal-and-run directive"),
    }
}

#[test]
fn menu_show_reveals() {
    assert!(matches!(handle_menu_event("show"), WindowDirective::Reveal));
}

#[test]
fn menu_dashboard_navigates() {
    match handle_menu_event("dashboard") {
        WindowDirective::RevealAndRun { script } => {
            assert_eq!(script, "window.location.hash = '#/dashboard';");
        }
        _ => panic!("expected a reveal-and-run directive"),
    }
}

#[test]
fn menu_incidents_navigates() {
    match handle_menu_event("incidents") {
        WindowDirective::RevealAndRun { script } => {
            assert_eq!(script, "window.location.hash = '#/incidents';");
        }
        _ => panic!("expected a reveal-and-run directive"),
    }
}

#[test]
fn menu_quit_exits_with_code_zero() {
    match handle_menu_event("quit") {
        WindowDirective::Exit { code } => assert_eq!(code, 0),
        _ => panic!("expected an exit directive"),
    }
}

#[test]
fn menu_unknown_identity_ignored() {
    assert!(matches!(handle_menu_event("settings"), WindowDirective::Ignore));
    assert!(matches!(handle_menu_event(""), WindowDirective::Ignore));
    assert!(matches!(handle_menu_event("SHOW"), WindowDirective::Ignore));
}

#[test]
fn menu_identity_parsing() {
    assert_eq!(parse_menu_id("show"), Some(MenuAction::Show));
    assert_eq!(parse_menu_id("dashboard"), Some(MenuAction::Dashboard));
    assert_eq!(parse_menu_id("incidents"), Some(MenuAction::Incidents));
    assert_eq!(parse_menu_id("quit"), Some(MenuAction::Quit));
    assert_eq!(parse_menu_id("shown"), None);
}

#[test]
fn tray_double_click_reveals() {
    assert!(matches!(
        handle_tray_icon_event(TrayIconInteraction::DoubleClick),
        WindowDirective::Reveal
    ));
}

#[test]
fn tray_other_interactions_ignored() {
    assert!(matches!(
        handle_tray_icon_event(TrayIconInteraction::Click),
        WindowDirective::Ignore
    ));
    assert!(matches!(
        handle_tray_icon_event(TrayIconInteraction::Enter),
        WindowDirective::Ignore
    ));
    assert!(matches!(
        handle_tray_icon_event(TrayIconInteraction::Leave),
        WindowDirective::Ignore
    ));
}

#[test]
fn tray_menu_table() {
    let entries = tray_menu_entries();
    assert_eq!(entries.len(), 6);
    let expected: [Option<(&str, &str)>; 6] = [
        Some(("show", "Show DisasterConnect")),
        None,
        Some(("dashboard", "Open Dashboard")),
        Some(("incidents", "View Incidents")),
        None,
        Some(("quit", "Quit")),
    ];
    for (entry, want) in entries.iter().zip(expected.iter()) {
        match (entry, want) {
            (MenuEntry::Item { id, label }, Some((want_id, want_label))) => {
                assert_eq!(id, want_id);
                assert_eq!(label, want_label);
            }
            (MenuEntry::Separator, None) => {}
            _ => panic!("menu entry out of place"),
        }
    }
}

#[test]
fn plugin_registration_table() {
    assert_eq!(
        plugin_registration_order(),
        vec![
            Plugin::Opener,
            Plugin::Store,
            Plugin::Notification,
            Plugin::Sql,
            Plugin::Dialog,
            Plugin::Fs,
            Plugin::Process,
            Plugin::Updater,
            Plugin::DeepLink,
        ]
    );
}

#[test]
fn tray_tooltip_text() {
    assert_eq!(tray_tooltip(), "DisasterConnect");
}
