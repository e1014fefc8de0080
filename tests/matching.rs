use vanity_wasm::{matches_prefix_suffix, normalize_pattern, str_ends_with, str_starts_with};

#[test]
fn normalize_keeps_or_lowercases() {
    assert_eq!(normalize_pattern("AbC9", true), "AbC9");
    assert_eq!(normalize_pattern("AbC9", false), "abc9");
}

#[test]
fn normalize_is_idempotent() {
    let once = normalize_pattern("XyZ123", false);
    let twice = normalize_pattern(&once, false);
    assert_eq!(once, twice);
}

#[test]
fn starts_and_ends_with() {
    assert!(str_starts_with("Abcdef", "Abc"));
    assert!(!str_starts_with("Abcdef", "abc"));
    assert!(str_starts_with("Abc", ""));
    assert!(!str_starts_with("Ab", "Abc"));
    assert!(str_ends_with("Abcdef", "def"));
    assert!(!str_ends_with("Abcdef", "dex"));
    assert!(!str_ends_with("ef", "def"));
}

#[test]
fn case_sensitive_prefix_match() {
    let address = "AbXYZ9kq";
    assert!(matches_prefix_suffix(address, Some("Ab"), None, true));
    assert!(!matches_prefix_suffix(address, Some("ab"), None, true));
    assert!(!matches_prefix_suffix(address, Some("bX"), None, true));
}

#[test]
fn case_insensitive_prefix_match() {
    let address = "AbXYZ9kq";
    assert!(matches_prefix_suffix(address, Some("abxy"), None, false));
    assert!(!matches_prefix_suffix(address, Some("abz"), None, false));
}

#[test]
fn both_sides_are_required() {
    let address = "AbXYZ9kq";
    assert!(matches_prefix_suffix(address, Some("Ab"), Some("kq"), true));
    assert!(!matches_prefix_suffix(address, Some("Ab"), Some("kQ"), true));
    assert!(matches_prefix_suffix(address, Some("ab"), Some("9KQ"), false) == false);
    assert!(matches_prefix_suffix(address, Some("ab"), Some("9kq"), false));
}

#[test]
fn absent_patterns_match_everything() {
    assert!(matches_prefix_suffix("anything", None, None, true));
    assert!(matches_prefix_suffix("", None, None, false));
}
