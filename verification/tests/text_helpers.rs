use streamer::text::{decimal, has_prefix, hyphenate, signed_decimal, skip_chars};

#[test]
fn hyphenate_replaces_every_space() {
    assert_eq!(hyphenate("my cool layout"), "my-cool-layout");
    assert_eq!(hyphenate("  two  spaces "), "--two--spaces-");
    assert_eq!(hyphenate(""), "");
    assert_eq!(hyphenate("nospace"), "nospace");
    assert_eq!(hyphenate(" "), "-");
}

#[test]
fn hyphenate_keeps_other_white_space_and_hyphens() {
    assert_eq!(hyphenate("a\tb\nc-d"), "a\tb\nc-d");
    assert_eq!(hyphenate("a\u{a0}b"), "a\u{a0}b");
}

#[test]
fn hyphenate_keeps_wide_characters() {
    assert_eq!(hyphenate("caf\u{e9} \u{1f600} x"), "caf\u{e9}-\u{1f600}-x");
}

#[test]
fn decimal_writes_digits_without_leading_zeros() {
    assert_eq!(decimal(0), "0");
    assert_eq!(decimal(7), "7");
    assert_eq!(decimal(9), "9");
    assert_eq!(decimal(10), "10");
    assert_eq!(decimal(11), "11");
    assert_eq!(decimal(100), "100");
    assert_eq!(decimal(1234567890), "1234567890");
    assert_eq!(decimal(u64::MAX), "18446744073709551615");
}

#[test]
fn decimal_agrees_with_the_standard_library() {
    for number in 0..2000u64 {
        assert_eq!(decimal(number), number.to_string());
    }
}

#[test]
fn prefix_test_compares_characters() {
    assert!(has_prefix("https://example.test", "https://"));
    assert!(has_prefix("https://", "https://"));
    assert!(!has_prefix("https:/", "https://"));
    assert!(!has_prefix("http://example.test", "https://"));
    assert!(!has_prefix("", "https://"));
    assert!(has_prefix("anything", ""));
    assert!(has_prefix("", ""));
    assert!(!has_prefix("xhttps://", "https://"));
    assert!(has_prefix("\u{e9}t\u{e9}", "\u{e9}t"));
    assert!(!has_prefix("\u{e9}t\u{e9}", "et"));
}

#[test]
fn skip_drops_leading_characters() {
    assert_eq!(skip_chars("log debug", 4), "debug");
    assert_eq!(skip_chars("log ", 4), "");
    assert_eq!(skip_chars("abc", 0), "abc");
    assert_eq!(skip_chars("\u{e9}t\u{e9}", 1), "t\u{e9}");
    assert_eq!(skip_chars("", 0), "");
}

#[test]
fn signed_decimal_puts_a_minus_before_negative_numbers() {
    assert_eq!(signed_decimal(0), "0");
    assert_eq!(signed_decimal(5), "5");
    assert_eq!(signed_decimal(-5), "-5");
    assert_eq!(signed_decimal(-10), "-10");
    assert_eq!(signed_decimal(1_700_000_000), "1700000000");
    assert_eq!(signed_decimal(i64::MAX), "9223372036854775807");
    assert_eq!(signed_decimal(i64::MIN), "-9223372036854775808");
    assert_eq!(signed_decimal(i64::MIN + 1), "-9223372036854775807");
}

#[test]
fn signed_decimal_is_the_json_number_literal() {
    for number in [0i64, 1, -1, 9, 10, -10, 99, 100, 12345, -98765, i64::MAX, i64::MIN] {
        assert_eq!(signed_decimal(number), serde_json::to_string(&number).unwrap());
    }
    for number in -300i64..300 {
        assert_eq!(signed_decimal(number), number.to_string());
    }
}
