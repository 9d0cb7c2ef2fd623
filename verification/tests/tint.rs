use vector_app::app::AppState;
use vector_app::config::{Kind, ProfileEntry};
use vector_app::tint::parse_hex_rgb;

fn tinted(name: &str, tint: Option<&str>) -> ProfileEntry {
    ProfileEntry { name: name.to_owned(), kind: Some(Kind::Local), tint: tint.map(|t| t.to_owned()), clipboard_write: None }
}

#[test]
fn tint_color_configured_draws() {
    let mut app = AppState::new();
    app.apply_config(vec![tinted("default", Some("#7a3aaf"))]);
    let tint = app.active_profile_tint();
    assert_eq!(tint, Some([0x7a, 0x3a, 0xaf]));
    let plan = app.chrome_draw_plan(tint.is_some(), false);
    assert!(plan.draw_tint, "tint must draw when active profile has tint color");
}

#[test]
fn no_tint_without_config_profile_or_colour() {
    let mut app = AppState::new();
    assert_eq!(app.active_profile_tint(), None);
    app.apply_config(vec![tinted("other", Some("#ffffff"))]);
    assert_eq!(app.active_profile_tint(), None);
    app.apply_config(vec![tinted("default", None)]);
    assert_eq!(app.active_profile_tint(), None);
    app.apply_config(vec![tinted("default", Some("purple"))]);
    assert_eq!(app.active_profile_tint(), None);
}

#[test]
fn hex_tints_are_an_optional_hash_and_six_hex_digits() {
    assert_eq!(parse_hex_rgb("#000000"), Some([0, 0, 0]));
    assert_eq!(parse_hex_rgb("FFffFF"), Some([255, 255, 255]));
    assert_eq!(parse_hex_rgb("#0a0B0c"), Some([10, 11, 12]));
    assert_eq!(parse_hex_rgb("##0a0B0c"), None);
    assert_eq!(parse_hex_rgb("#+f+f+f"), None);
    assert_eq!(parse_hex_rgb("#12345"), None);
    assert_eq!(parse_hex_rgb("#1234567"), None);
    assert_eq!(parse_hex_rgb("#12g456"), None);
    assert_eq!(parse_hex_rgb("#-1-1-1"), None);
    assert_eq!(parse_hex_rgb(""), None);
    assert_eq!(parse_hex_rgb("#"), None);
}

#[test]
fn non_ascii_tints_are_no_colour() {
    assert_eq!(parse_hex_rgb("#é1234"), None);
    assert_eq!(parse_hex_rgb("#aé123"), None);
    assert_eq!(parse_hex_rgb("#aé€"), None);
    assert_eq!(parse_hex_rgb("#ａbcdef"), None);
}
