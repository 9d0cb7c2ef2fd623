use vector_app::clipboard_router::{ClipboardAction, ClipboardEvent, ClipboardRouter, ClipboardType};
use vector_app::config::ClipboardPolicy;
use vector_app::toast::ToastMode;

fn make_router(policy: Option<ClipboardPolicy>) -> ClipboardRouter {
    ClipboardRouter { active_profile: "default".into(), policy }
}

#[test]
fn allow_policy_routes_to_write_pasteboard() {
    let router = make_router(Some(ClipboardPolicy::Allow));
    let event = ClipboardEvent::Store(ClipboardType::Clipboard, "payload".into());
    match router.handle(event, "zsh", 0) {
        ClipboardAction::WritePasteboard(s) => assert_eq!(s, "payload"),
        other => panic!("expected WritePasteboard, got {other:?}"),
    }
}

#[test]
fn no_policy_routes_to_action_toast_with_three_buttons() {
    let router = make_router(None);
    let event = ClipboardEvent::Store(ClipboardType::Clipboard, "secret".into());
    match router.handle(event, "zsh", 0) {
        ClipboardAction::ShowPrompt(toast) => match &toast.mode {
            ToastMode::Action { buttons } => assert_eq!(
                buttons,
                &vec!["allow once".to_owned(), "always".to_owned(), "block".to_owned()]
            ),
            other => panic!("expected Action toast, got {other:?}"),
        },
        other => panic!("expected ShowPrompt, got {other:?}"),
    }
}

#[test]
fn block_policy_routes_to_info_toast() {
    let router = make_router(Some(ClipboardPolicy::Block));
    let event = ClipboardEvent::Store(ClipboardType::Clipboard, "payload".into());
    match router.handle(event, "zsh", 0) {
        ClipboardAction::ShowPrompt(toast) => {
            assert!(matches!(toast.mode, ToastMode::Info));
            assert_eq!(toast.text, "clipboard write from default blocked");
        }
        other => panic!("expected ShowPrompt, got {other:?}"),
    }
}

#[test]
fn prompt_names_profile_and_process() {
    let router = ClipboardRouter { active_profile: "work".into(), policy: None };
    let event = ClipboardEvent::Store(ClipboardType::Selection, "x".into());
    match router.handle(event, "vim", 7) {
        ClipboardAction::ShowPrompt(toast) => {
            assert_eq!(toast.text, "allow \"work : vim\" to write to your clipboard?");
            assert_eq!(toast.shown_at_ms, 7);
        }
        other => panic!("expected ShowPrompt, got {other:?}"),
    }
}

#[test]
fn reads_are_always_denied() {
    let router = make_router(Some(ClipboardPolicy::Allow));
    assert!(matches!(router.handle(ClipboardEvent::LoadDenied, "zsh", 0), ClipboardAction::DenyRead));
}
