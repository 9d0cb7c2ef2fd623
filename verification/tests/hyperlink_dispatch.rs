use vector_app::hyperlink_dispatch::{dispatch_cmd_click, DispatchAction, DISALLOWED_SCHEME_TOAST};
use vector_app::toast::{ToastMode, ToastStack};

// The scheme allowlist (http, https, file, mailto) is the terminal's; the
// caller hands its verdict over.

#[test]
fn cmd_click_allowed_scheme_opens() {
    let mut toasts = ToastStack::default();
    let action = dispatch_cmd_click("https://example.com", true, &mut toasts, 0);
    assert_eq!(action, DispatchAction::OpenUrl("https://example.com".to_owned()));
    assert!(toasts.current().is_none(), "no toast for allowed scheme");
}

#[test]
fn cmd_click_disallowed_scheme_toasts() {
    let mut toasts = ToastStack::default();
    let action = dispatch_cmd_click("javascript:alert(1)", false, &mut toasts, 0);
    assert_eq!(action, DispatchAction::NoAction);
    let t = toasts.current().expect("toast must be pushed on disallowed scheme");
    assert_eq!(t.text, DISALLOWED_SCHEME_TOAST);
}

#[test]
fn gopher_scheme_rejected_with_toast() {
    let mut toasts = ToastStack::default();
    let action = dispatch_cmd_click("gopher://example.com", false, &mut toasts, 0);
    assert_eq!(action, DispatchAction::NoAction);
    assert_eq!(toasts.current().unwrap().text, "vector only opens http and https links");
}

#[test]
fn file_scheme_allowed() {
    let mut toasts = ToastStack::default();
    let action = dispatch_cmd_click("file:///etc/hosts", true, &mut toasts, 0);
    assert!(matches!(action, DispatchAction::OpenUrl(_)));
}

#[test]
fn mailto_scheme_allowed() {
    let mut toasts = ToastStack::default();
    let action = dispatch_cmd_click("mailto:user@host.com", true, &mut toasts, 0);
    assert!(matches!(action, DispatchAction::OpenUrl(_)));
}

#[test]
fn refusal_toast_is_info_and_replaces_previous() {
    let mut toasts = ToastStack::default();
    let _ = dispatch_cmd_click("gopher://a", false, &mut toasts, 10);
    let _ = dispatch_cmd_click("gopher://b", false, &mut toasts, 20);
    let t = toasts.current().unwrap();
    assert_eq!(t.mode, ToastMode::Info);
    assert_eq!(t.shown_at_ms, 20);
}

#[test]
fn allowed_click_keeps_existing_toast() {
    let mut toasts = ToastStack::default();
    let _ = dispatch_cmd_click("gopher://a", false, &mut toasts, 10);
    let _ = dispatch_cmd_click("https://ok", true, &mut toasts, 20);
    assert_eq!(toasts.current().unwrap().shown_at_ms, 10);
}
