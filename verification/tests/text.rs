use piimgproc::text::{
    chars_of, contains, decimal_string, is_space_char, join_with, signed_decimal_string, str_eq,
    string_of, trim,
};

#[test]
fn decimal_numerals() {
    assert_eq!(decimal_string(0), "0");
    assert_eq!(decimal_string(7), "7");
    assert_eq!(decimal_string(10), "10");
    assert_eq!(decimal_string(65535), "65535");
    assert_eq!(decimal_string(5 * 1024 * 1024), "5242880");
    assert_eq!(decimal_string(u64::MAX), "18446744073709551615");
    for n in [1u64, 9, 11, 99, 100, 101, 999, 1000, 123456789] {
        assert_eq!(decimal_string(n), n.to_string());
    }
}

#[test]
fn signed_decimal_numerals() {
    assert_eq!(signed_decimal_string(0), "0");
    assert_eq!(signed_decimal_string(-1), "-1");
    assert_eq!(signed_decimal_string(-100), "-100");
    assert_eq!(signed_decimal_string(100), "100");
    assert_eq!(signed_decimal_string(i64::MIN), "-9223372036854775808");
    assert_eq!(signed_decimal_string(i64::MAX), "9223372036854775807");
}

#[test]
fn white_space_is_that_of_the_standard_library() {
    for code in 0u32..0x11000 {
        if let Some(c) = char::from_u32(code) {
            assert_eq!(is_space_char(c), c.is_whitespace(), "for U+{:04X}", code);
        }
    }
}

#[test]
fn trimming() {
    assert_eq!(trim("  hunter2 \r\n"), "hunter2");
    assert_eq!(trim("a b"), "a b");
    assert_eq!(trim(""), "");
    assert_eq!(trim(" \t\n"), "");
    assert_eq!(trim("\u{3000}x\u{a0}"), "x");
    for text in ["x", " x", "x ", "  a  b  ", "\n\n", "日本 語 "] {
        assert_eq!(trim(text), text.trim());
    }
}

#[test]
fn searching() {
    assert!(contains("Connection refused", "refused"));
    assert!(contains("abc", ""));
    assert!(contains("", ""));
    assert!(!contains("", "a"));
    assert!(!contains("ab", "abc"));
    assert!(contains("aab", "ab"));
    assert!(!contains("Permission Denied", "Permission denied"));
    for hay in ["", "a", "abcabd", "aaa", "日本語"] {
        for needle in ["", "a", "abd", "aa", "本", "語x"] {
            assert_eq!(contains(hay, needle), hay.contains(needle));
        }
    }
}

#[test]
fn characters_and_strings() {
    assert_eq!(chars_of("aé日"), vec!['a', 'é', '日']);
    let v = chars_of("hello");
    assert_eq!(string_of(&v, 1, 4), "ell");
    assert_eq!(string_of(&v, 2, 2), "");
    assert!(str_eq("a", "a"));
    assert!(!str_eq("a", "A"));
    assert!(!str_eq("a", "ab"));
}

#[test]
fn joining() {
    assert_eq!(join_with(&vec![], " "), "");
    assert_eq!(join_with(&vec!["a".to_string()], " "), "a");
    assert_eq!(join_with(&vec!["a".to_string(), "b".to_string(), "c".to_string()], ", "), "a, b, c");
    assert_eq!(join_with(&vec!["".to_string(), "".to_string()], "-"), "-");
}
