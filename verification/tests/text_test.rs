use forgebot::envmap::EnvMap;
use forgebot::text::{
    contains, find, i64_to_decimal, join_strings, parse_unsigned, split_char, split_once_char,
    take_leading_digits, trim, trim_end_char, trim_start_matches, u64_to_decimal,
};

#[test]
fn splitting_and_joining() {
    assert_eq!(split_char("a:b::c", ':'), vec!["a", "b", "", "c"]);
    assert_eq!(split_char("", ':'), vec![""]);
    assert_eq!(split_char(":", ':'), vec!["", ""]);
    let parts = vec!["x".to_string(), "y".to_string(), "z".to_string()];
    assert_eq!(join_strings(&parts, ", "), "x, y, z");
    assert_eq!(join_strings(&vec![], ":"), "");
    assert_eq!(
        split_once_char("a/b/c", '/'),
        ("a".to_string(), Some("b/c".to_string()))
    );
    assert_eq!(split_once_char("abc", '/'), ("abc".to_string(), None));
}

#[test]
fn searching_and_trimming() {
    assert_eq!(find("hello world", "o w"), Some(4));
    assert_eq!(find("abc", "d"), None);
    assert!(contains("say @forgebot now", "@forgebot"));
    assert_eq!(trim("  x y \n"), "x y");
    assert_eq!(trim_end_char("a///", '/'), "a");
    assert_eq!(
        trim_start_matches("refs/heads/refs/heads/main", "refs/heads/"),
        "main"
    );
    assert_eq!(take_leading_digits("42-extra"), "42");
}

#[test]
fn numbers() {
    assert_eq!(u64_to_decimal(0), "0");
    assert_eq!(u64_to_decimal(18446744073709551615), "18446744073709551615");
    assert_eq!(i64_to_decimal(-9223372036854775808), "-9223372036854775808");
    assert_eq!(i64_to_decimal(-1), "-1");
    assert_eq!(parse_unsigned("+65535", 65535), Some(65535));
    assert_eq!(parse_unsigned("65536", 65535), None);
    assert_eq!(parse_unsigned("", 10), None);
}

#[test]
fn later_assignments_win() {
    let mut m = EnvMap::from_pairs(vec![
        ("A".to_string(), "1".to_string()),
        ("A".to_string(), "2".to_string()),
    ]);
    assert_eq!(m.get("A").as_deref(), Some("2"));
    m.insert("A".to_string(), "3".to_string());
    assert_eq!(m.get("A").as_deref(), Some("3"));
    assert!(!m.contains_key("B"));
    assert!(EnvMap::new().get("A").is_none());
}
