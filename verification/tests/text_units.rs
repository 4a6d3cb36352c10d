use hermes_rs::text::{char_line, escape_json, pad_right, str_eq, to_upper, u64_to_dec};
use serde_json::Value;

#[test]
fn escaping_matches_the_serializer() {
    let samples = [
        "plain",
        "quote \" backslash \\ slash /",
        "newline \n tab \t return \r backspace \u{8} formfeed \u{c}",
        "control \u{1} \u{1f} high \u{7f}",
        "unicode \u{e9}\u{4e16}\u{754c}",
        "",
    ];
    for s in samples {
        let expected = serde_json::to_string(&Value::String(s.to_string())).unwrap();
        let built = format!("\"{}\"", escape_json(s));
        assert_eq!(built, expected);
    }
}

#[test]
fn decimal_formatting_is_exact() {
    assert_eq!(u64_to_dec(0), "0");
    assert_eq!(u64_to_dec(7), "7");
    assert_eq!(u64_to_dec(1000), "1000");
    assert_eq!(u64_to_dec(u64::MAX), "18446744073709551615");
}

#[test]
fn upper_casing_is_ascii_only() {
    assert_eq!(to_upper("get"), "GET");
    assert_eq!(to_upper("PaTcH"), "PATCH");
    assert_eq!(to_upper("d\u{e9}j\u{e0}"), "D\u{e9}J\u{e0}");
}

#[test]
fn padding_and_lines() {
    assert_eq!(pad_right("abc", 6), "abc   ");
    assert_eq!(pad_right("abcdef", 3), "abcdef");
    assert_eq!(char_line('-', 4), "----");
}

#[test]
fn string_equality_is_by_contents() {
    assert!(str_eq("abc", &"abc".to_string()));
    assert!(!str_eq("abc", "abd"));
    assert!(!str_eq("abc", "ab"));
}
