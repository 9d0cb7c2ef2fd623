use vector_app::text::{str_contains, u64_to_string, u64_to_string_2};
use vector_app::DEFAULT_CONFIG_TOML;

#[test]
fn decimal_rendering() {
    assert_eq!(u64_to_string(0), "0");
    assert_eq!(u64_to_string(42), "42");
    assert_eq!(u64_to_string(u64::MAX), "18446744073709551615");
    assert_eq!(u64_to_string_2(7), "07");
    assert_eq!(u64_to_string_2(59), "59");
    assert_eq!(u64_to_string_2(123), "123");
}

#[test]
fn substring_search() {
    assert!(str_contains("hello world", "o w"));
    assert!(str_contains("abc", ""));
    assert!(!str_contains("abc", "abcd"));
    assert!(!str_contains("", "a"));
    assert!(str_contains("aaab", "aab"));
}

#[test]
fn default_config_ships_reload_keybind() {
    assert!(DEFAULT_CONFIG_TOML.starts_with("[default]\ntheme = \"vector-dark\"\n"));
    assert!(DEFAULT_CONFIG_TOML.contains("key = \"cmd-shift-r\"\naction = \"reload-config\"\n"));
}
