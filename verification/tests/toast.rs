use vector_app::toast::{ToastBanner, ToastMode, ToastStack, ACTION_HEIGHT_PX, INFO_HEIGHT_PX};

#[test]
fn heights_by_mode() {
    assert_eq!(ToastBanner::info("a", 0).height_px(), INFO_HEIGHT_PX);
    assert_eq!(ToastBanner::action("a", vec!["ok".to_owned()], 0).height_px(), ACTION_HEIGHT_PX);
    assert_eq!((INFO_HEIGHT_PX, ACTION_HEIGHT_PX), (36, 56));
}

#[test]
fn info_dismisses_after_five_seconds_action_never() {
    let info = ToastBanner::info("hi", 1000);
    assert!(!info.should_auto_dismiss(5999));
    assert!(info.should_auto_dismiss(6000));
    assert!(!info.should_auto_dismiss(10), "a clock before the show time counts as no time");
    let action = ToastBanner::action("q", vec!["yes".to_owned()], 0);
    assert!(!action.should_auto_dismiss(u64::MAX));
}

#[test]
fn newer_toast_replaces_older_and_tick_keeps_action() {
    let mut stack = ToastStack::new();
    stack.show(ToastBanner::info("one", 0));
    stack.show(ToastBanner::action("two", vec!["ok".to_owned()], 1));
    assert_eq!(stack.current().unwrap().text, "two");
    stack.tick(1_000_000);
    assert!(matches!(stack.current().unwrap().mode, ToastMode::Action { .. }));
    stack.dismiss();
    assert!(stack.current().is_none());
    stack.tick(0);
    assert!(stack.current().is_none());
}
