//! Device-flow modals: panel size and countdown lines.

use vector_app::auth_modal::expiry_line;
use vector_app::github_auth_modal::{countdown_label, PANEL_H, PANEL_W};

#[test]
fn panel_frame_constants_lock_480x280() {
    assert!((f64::from(PANEL_W) - 480.0).abs() < f64::EPSILON);
    assert!((f64::from(PANEL_H) - 280.0).abs() < f64::EPSILON);
}

#[test]
fn github_countdown_minutes_and_padded_seconds() {
    assert_eq!(countdown_label(0, 900_000).unwrap(), "Expires in 15:00");
    assert_eq!(countdown_label(1_500, 10_000).unwrap(), "Expires in 0:08");
    assert_eq!(countdown_label(0, 65_999).unwrap(), "Expires in 1:05");
    assert!(countdown_label(10_000, 10_000).is_none());
    assert!(countdown_label(20_000, 10_000).is_none());
}

#[test]
fn device_code_expiry_line() {
    assert_eq!(
        expiry_line(605).unwrap(),
        "Code copied to clipboard. Expires in 10:05."
    );
    assert_eq!(
        expiry_line(59).unwrap(),
        "Code copied to clipboard. Expires in 00:59."
    );
    assert!(expiry_line(0).is_none());
}
