use scouting::text::{
    contains_text, decimal_text, is_blank, parse_u32, signed_decimal_text, str_eq, strip_prefix,
};

#[test]
fn str_eq_compares_characters() {
    assert!(str_eq("yes", "yes"));
    assert!(!str_eq("yes", "Yes"));
    assert!(!str_eq("yes", "yess"));
    assert!(str_eq("", ""));
}

#[test]
fn strip_prefix_gives_rest() {
    assert_eq!(strip_prefix("frc254", "frc"), Some("254"));
    assert_eq!(strip_prefix("frc", "frc"), Some(""));
    assert_eq!(strip_prefix("fr", "frc"), None);
    assert_eq!(strip_prefix("254", "frc"), None);
    assert_eq!(strip_prefix("ünï", "ü"), Some("nï"));
}

#[test]
fn contains_text_finds_runs() {
    assert!(contains_text("error: UNIQUE constraint failed: user_list.username", "UNIQUE constraint failed"));
    assert!(!contains_text("UNIQUE constraint", "UNIQUE constraint failed"));
    assert!(contains_text("abc", ""));
    assert!(contains_text("abc", "c"));
    assert!(!contains_text("", "a"));
}

#[test]
fn blank_means_only_white_space() {
    assert!(is_blank(""));
    assert!(is_blank(" \t\n\r"));
    assert!(is_blank("\u{3000}\u{00A0}\u{2028}"));
    assert!(!is_blank(" a "));
    assert!(!is_blank("x"));
    assert_eq!(is_blank(" \u{200B} "), " \u{200B} ".trim().is_empty());
}

#[test]
fn parse_u32_follows_decimal_rules() {
    assert_eq!(parse_u32("254"), Some(254));
    assert_eq!(parse_u32("+7"), Some(7));
    assert_eq!(parse_u32("007"), Some(7));
    assert_eq!(parse_u32("4294967295"), Some(4294967295));
    assert_eq!(parse_u32("4294967296"), None);
    assert_eq!(parse_u32("-1"), None);
    assert_eq!(parse_u32("-0"), None);
    assert_eq!(parse_u32("+"), None);
    assert_eq!(parse_u32(""), None);
    assert_eq!(parse_u32(" 1"), None);
    assert_eq!(parse_u32("12a"), None);
}

#[test]
fn decimal_text_matches_display() {
    assert_eq!(decimal_text(0), "0");
    assert_eq!(decimal_text(7), "7");
    assert_eq!(decimal_text(1234567890), "1234567890");
    assert_eq!(decimal_text(u64::MAX), u64::MAX.to_string());
    assert_eq!(signed_decimal_text(-5), "-5");
    assert_eq!(signed_decimal_text(42), "42");
    assert_eq!(signed_decimal_text(i32::MIN), i32::MIN.to_string());
}

#[test]
fn parsing_undoes_decimal_text() {
    for n in [0u32, 9, 10, 254, 65535, 1_000_000, u32::MAX] {
        assert_eq!(parse_u32(&decimal_text(n as u64)), Some(n));
    }
}
