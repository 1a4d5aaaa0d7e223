use deckshot::strutil::{contains_sub, ends_with, parse_u64, split_slash_exec, str_eq, u64_to_string};

#[test]
fn ends_with_suffix() {
    assert!(ends_with("shot.jpg", ".jpg"));
    assert!(ends_with(".jpg", ".jpg"));
    assert!(!ends_with("shot.png", ".jpg"));
    assert!(!ends_with("jpg", ".jpg"));
    assert!(ends_with("anything", ""));
}

#[test]
fn contains_substring() {
    assert!(contains_sub("a/thumbnails/1.jpg", "thumbnail"));
    assert!(!contains_sub("a/screenshots/1.jpg", "thumbnail"));
    assert!(contains_sub("abc", ""));
    assert!(contains_sub("abc", "abc"));
    assert!(!contains_sub("ab", "abc"));
}

#[test]
fn string_equality() {
    assert!(str_eq("730", "730"));
    assert!(!str_eq("730", "731"));
    assert!(!str_eq("73", "730"));
    assert!(str_eq("", ""));
}

#[test]
fn split_keeps_empty_pieces() {
    let parts = split_slash_exec("/a/b/c.jpg");
    assert_eq!(parts, vec!["", "a", "b", "c.jpg"]);
    let parts = split_slash_exec("");
    assert_eq!(parts, vec![""]);
    let parts = split_slash_exec("a//b/");
    assert_eq!(parts, vec!["a", "", "b", ""]);
}

#[test]
fn parse_decimal() {
    assert_eq!(parse_u64("730"), Some(730));
    assert_eq!(parse_u64("0"), Some(0));
    assert_eq!(parse_u64("18446744073709551615"), Some(u64::MAX));
    assert_eq!(parse_u64("18446744073709551616"), None);
    assert_eq!(parse_u64("99999999999999999999999"), None);
    assert_eq!(parse_u64(""), None);
    assert_eq!(parse_u64("12a"), None);
    assert_eq!(parse_u64("-3"), None);
}

#[test]
fn format_decimal() {
    assert_eq!(u64_to_string(0), "0");
    assert_eq!(u64_to_string(7), "7");
    assert_eq!(u64_to_string(730), "730");
    assert_eq!(u64_to_string(1209600), "1209600");
    assert_eq!(u64_to_string(u64::MAX), "18446744073709551615");
}

#[test]
fn format_then_parse_round_trip() {
    for n in [0u64, 1, 9, 10, 60, 730, 1209600, u64::MAX] {
        assert_eq!(parse_u64(&u64_to_string(n)), Some(n));
    }
}
