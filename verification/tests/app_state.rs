use std::collections::HashMap;

use vector_app::app::{notice_text, pane_input_locked, AppState, Notice, PaneUiState, ReconnectingState};
use vector_app::config::{ClipboardPolicy, Kind, ProfileEntry};
use vector_app::search_bar::SelectionRange;

fn profile(name: &str, kind: Option<Kind>, tint: Option<&str>, clip: Option<ClipboardPolicy>) -> ProfileEntry {
    ProfileEntry { name: name.to_owned(), kind, tint: tint.map(|t| t.to_owned()), clipboard_write: clip }
}

fn two_profiles() -> Vec<ProfileEntry> {
    vec![
        profile("default", Some(Kind::Local), None, None),
        profile("work-cs", Some(Kind::Codespace), None, None),
    ]
}

#[test]
fn app_search_bar_starts_closed() {
    let app = AppState::new();
    assert!(!app.search_bar.open, "search bar must start closed");
}

#[test]
fn app_profile_picker_starts_empty() {
    let app = AppState::new();
    assert!(app.profile_picker.entries.is_empty(), "picker entries must start empty");
}

#[test]
fn toggle_search_opens_search_bar() {
    let mut app = AppState::new();
    assert!(!app.search_bar.open, "precondition: starts closed");
    app.toggle_search(None);
    assert!(app.search_bar.open, "ToggleSearch must open the search bar");
}

#[test]
fn open_profile_picker_with_config() {
    let mut app = AppState::new();
    app.apply_config(two_profiles());
    app.open_profile_picker();
    assert!(app.profile_picker.open, "OpenProfilePicker must open the picker");
    assert_eq!(app.profile_picker.entries.len(), 2, "picker must have 2 entries from the config");
}

#[test]
fn toggle_search_twice_closes_search_bar() {
    let mut app = AppState::new();
    app.toggle_search(None);
    assert!(app.search_bar.open);
    app.toggle_search(None);
    assert!(!app.search_bar.open, "second ToggleSearch must close the search bar");
}

#[test]
fn toggle_search_twice_hands_back_selection() {
    let mut app = AppState::new();
    let sel = SelectionRange { anchor: (1, 2), cursor: (3, 2) };
    assert_eq!(app.toggle_search(Some(sel)), None);
    assert_eq!(app.toggle_search(None), Some(sel));
}

#[test]
fn default_state_all_false() {
    let app = AppState::new();
    let plan = app.chrome_draw_plan(false, false);
    assert!(!plan.draw_tint);
    assert!(!plan.draw_search_bar);
    assert!(!plan.draw_toast);
    assert!(!plan.draw_picker);
}

#[test]
fn search_bar_open_no_rect_does_not_draw() {
    let mut app = AppState::new();
    app.toggle_search(None);
    assert!(app.search_bar.open);
    let plan = app.chrome_draw_plan(false, false);
    assert!(!plan.draw_search_bar, "search bar must not draw without the pane rectangle");
}

#[test]
fn search_bar_open_with_rect_draws() {
    let mut app = AppState::new();
    app.toggle_search(None);
    let plan = app.chrome_draw_plan(false, true);
    assert!(plan.draw_search_bar, "search bar must draw when open and the rectangle is known");
}

#[test]
fn picker_open_draws() {
    let mut app = AppState::new();
    app.apply_config(Vec::new());
    app.open_profile_picker();
    let plan = app.chrome_draw_plan(false, false);
    assert!(plan.draw_picker, "picker must draw when open");
}

#[test]
fn toast_shown_draws() {
    let mut app = AppState::new();
    app.show_notice(&Notice::Info("test toast".to_owned()), 0);
    let plan = app.chrome_draw_plan(false, false);
    assert!(plan.draw_toast, "toast must draw when one is up");
}

#[test]
fn input_locked_in_reconnecting_state() {
    let pane = 42u64;
    let other = 99u64;
    let mut map: HashMap<u64, ReconnectingState> = HashMap::new();
    assert!(!pane_input_locked(&map, pane));
    map.insert(
        pane,
        ReconnectingState {
            profile_label: "corp-dev-box-42".to_string(),
            attempt: 1,
            started_at_ms: 0,
            fade_in_started_at_ms: None,
        },
    );
    assert!(pane_input_locked(&map, pane));
    assert!(!pane_input_locked(&map, other));
    map.remove(&pane);
    assert!(!pane_input_locked(&map, pane));
}

#[test]
fn gate_toasts_once_per_reconnect_span() {
    let mut app = AppState::new();
    assert!(app.gate_pty_input(Some(7), 0));
    app.on_pane_reconnecting(7, 1, "box".to_owned(), 100);
    assert_eq!(app.pane_ui_state(7), PaneUiState::Reconnecting);
    assert_eq!(app.pane_ui_state(8), PaneUiState::Active);
    assert!(!app.gate_pty_input(Some(7), 110));
    assert_eq!(app.toasts.current().unwrap().text, "Input ignored \u{2014} reconnecting");
    assert_eq!(app.toasts.current().unwrap().shown_at_ms, 110);
    assert!(!app.gate_pty_input(Some(7), 120));
    assert_eq!(app.toasts.current().unwrap().shown_at_ms, 110, "second drop is silent");
    assert!(app.gate_pty_input(Some(8), 130), "other panes are not locked");
    assert!(app.gate_pty_input(None, 130));
    app.forget_reconnect(7);
    assert!(app.gate_pty_input(Some(7), 140));
    assert_eq!(app.pane_ui_state(7), PaneUiState::Active);
    app.on_pane_reconnecting(7, 1, "box".to_owned(), 200);
    assert!(!app.gate_pty_input(Some(7), 210));
    assert_eq!(app.toasts.current().unwrap().shown_at_ms, 210, "a new span toasts again");
}

#[test]
fn reconnect_bar_waits_for_debounce_then_fades_in() {
    let mut app = AppState::new();
    assert_eq!(app.reconnect_bar_fade_ms(5, 1000), None);
    app.on_pane_reconnecting(5, 1, "box".to_owned(), 1000);
    assert_eq!(app.reconnect_bar_fade_ms(5, 1249), None);
    assert_eq!(app.reconnect_bar_fade_ms(5, 1250), Some(0));
    assert_eq!(app.reconnect_bar_fade_ms(5, 1300), Some(50));
    // A later attempt keeps the span's start and its fade.
    app.on_pane_reconnecting(5, 2, "box".to_owned(), 5000);
    assert_eq!(app.reconnecting_panes[&5].attempt, 2);
    assert_eq!(app.reconnecting_panes[&5].started_at_ms, 1000);
    assert_eq!(app.reconnect_bar_fade_ms(5, 1400), Some(150));
}

#[test]
fn apply_config_resolves_clipboard_policy() {
    let mut app = AppState::new();
    app.apply_config(vec![
        profile("other", None, None, Some(ClipboardPolicy::Block)),
        profile("default", None, None, Some(ClipboardPolicy::Allow)),
    ]);
    assert_eq!(app.clipboard_router.policy, Some(ClipboardPolicy::Allow));
    assert_eq!(app.route_clipboard_store(false, "data".to_owned(), "zsh", 0), Some("data".to_owned()));
    app.apply_config(vec![profile("other", None, None, Some(ClipboardPolicy::Allow))]);
    assert_eq!(app.clipboard_router.policy, None);
    assert_eq!(app.route_clipboard_store(true, "data".to_owned(), "zsh", 3), None);
    assert_eq!(app.toasts.current().unwrap().text, "allow \"default : zsh\" to write to your clipboard?");
}

#[test]
fn notices_read_verbatim() {
    let mut app = AppState::new();
    app.show_notice(&Notice::ConfigError("bad key".to_owned()), 1);
    assert_eq!(app.toasts.current().unwrap().text, "config error: bad key");
    app.show_notice(&Notice::DevTunnelConnectFailed { tunnel_id: "t1".to_owned(), reason: "timeout".to_owned() }, 2);
    assert_eq!(app.toasts.current().unwrap().text, "Could not connect to 't1': timeout.");
    app.show_notice(&Notice::DevTunnelConnectStarted("t2".to_owned()), 3);
    assert_eq!(app.toasts.current().unwrap().text, "Connecting to t2\u{2026}");
    app.show_notice(&Notice::ConfigReloaded, 4);
    assert_eq!(app.toasts.current().unwrap().text, "config reloaded");
}

#[test]
fn info_toasts_age_out_after_five_seconds() {
    let mut app = AppState::new();
    app.show_notice(&Notice::ConfigReloaded, 1000);
    app.tick_toasts(5999);
    assert!(app.toasts.current().is_some());
    app.tick_toasts(6000);
    assert!(app.toasts.current().is_none());
}

#[test]
fn picker_metrics_widest_label_and_visible_rows() {
    let mut app = AppState::new();
    assert_eq!(app.picker_metrics(), (280, 0));
    let mut ps = Vec::new();
    for i in 0..10 {
        ps.push(profile(&format!("p{i}"), None, None, None));
    }
    ps.push(profile("a-much-longer-name", None, None, None));
    app.apply_config(ps);
    app.open_profile_picker();
    assert_eq!(app.picker_metrics(), (18 * 9, 8));
}

#[test]
fn every_notice_text() {
    assert_eq!(notice_text(&Notice::Info("hi".to_owned())), "hi");
    assert_eq!(notice_text(&Notice::MicrosoftSignedIn), "Signed in to Microsoft.");
    assert_eq!(notice_text(&Notice::MicrosoftSignInCancelled), "Microsoft sign-in cancelled.");
    assert_eq!(notice_text(&Notice::MicrosoftSignInFailed("nope".to_owned())), "Microsoft sign-in failed: nope");
    assert_eq!(notice_text(&Notice::MicrosoftSignedOut), "Signed out of Microsoft.");
    assert_eq!(notice_text(&Notice::DevTunnelsAuthRequired), "Sign in with Microsoft to list Dev Tunnels.");
    assert_eq!(notice_text(&Notice::InputIgnoredReconnecting), "Input ignored \u{2014} reconnecting");
}
