//! Microsoft sign-in menu rows and the Switch Profile submenu.

use vector_app::config::{Kind, ProfileEntry};
use vector_app::menu::{microsoft_signin_menu_rows, submenu_rows_for, SignInState};

#[test]
fn signed_out_shows_sign_in_with_microsoft() {
    let rows = microsoft_signin_menu_rows(SignInState::SignedOut);
    assert_eq!(rows.len(), 1);
    assert_eq!(rows[0].0, "Sign in with Microsoft");
    assert!(rows[0].1, "row must be enabled");
}

#[test]
fn signed_in_shows_sign_out_of_microsoft() {
    let rows = microsoft_signin_menu_rows(SignInState::SignedIn);
    assert_eq!(rows.len(), 1);
    assert_eq!(rows[0].0, "Sign out of Microsoft");
    assert!(rows[0].1, "row must be enabled");
}

fn profile(name: &str, kind: Option<Kind>) -> ProfileEntry {
    ProfileEntry {
        name: name.to_string(),
        kind,
        tint: None,
        clipboard_write: None,
    }
}

/// Profiles as the config lists them: sorted by name.
fn three_profiles() -> Vec<ProfileEntry> {
    vec![
        profile("default", Some(Kind::Local)),
        profile("prod", Some(Kind::DevTunnel)),
        profile("work-cs", Some(Kind::Codespace)),
    ]
}

#[test]
fn rows_for_three_profiles_sorted_with_phase6_suffix() {
    let rows = submenu_rows_for(&three_profiles());
    assert_eq!(
        rows,
        vec![
            ("default".to_string(), true),
            ("prod (phase 6+)".to_string(), false),
            ("work-cs (phase 6+)".to_string(), false),
        ]
    );
}

#[test]
fn rows_for_empty_profiles_is_empty() {
    assert!(submenu_rows_for(&Vec::new()).is_empty());
}

#[test]
fn local_without_kind_defaults_to_enabled() {
    let rows = submenu_rows_for(&vec![profile("plain", None)]);
    assert_eq!(rows, vec![("plain".to_string(), true)]);
}

#[test]
fn submenu_rows_for_is_idempotent() {
    let cfg = three_profiles();
    let rows_a = submenu_rows_for(&cfg);
    let rows_b = submenu_rows_for(&cfg);
    assert_eq!(
        rows_a, rows_b,
        "submenu_rows_for must be referentially transparent"
    );
}

#[test]
fn submenu_rows_for_clone_equals_original() {
    let cfg = three_profiles();
    let cfg_clone = cfg.clone();
    let rows_a = submenu_rows_for(&cfg);
    let rows_b = submenu_rows_for(&cfg_clone);
    assert_eq!(
        rows_a, rows_b,
        "submenu_rows_for on a clone must equal the rows of the config it was cloned from"
    );
}
