use plugin_testkit::text::{
    byte_len, chars_of, contains, i64_to_string, is_whitespace, join, not_after, pad_left,
    pad_right, same, shorten, starts_with, string_from, to_ascii_lowercase, trim, u128_to_string,
};

#[test]
fn text_is_trimmed() {
    assert_eq!(trim(" \t\u{a0}a b\u{3000}\n"), "a b");
    assert_eq!(trim("\r\n "), "");
    assert_eq!(trim("\u{200b}"), "\u{200b}");
    for code in 0u32..0x11_0000 {
        if let Some(c) = char::from_u32(code) {
            assert_eq!(is_whitespace(c), c.is_whitespace(), "{code:x}");
        }
    }
}

#[test]
fn text_is_searched() {
    assert!(contains("héllo", "él"));
    assert!(contains("abc", ""));
    assert!(contains("", ""));
    assert!(!contains("ab", "abc"));
    assert!(contains("aab", "ab"));
    assert!(!contains("abc", "ac"));
    assert!(starts_with("$/x", "$/"));
    assert!(!starts_with("x$/", "$/"));
    assert!(same("a", "a"));
    assert!(!same("a", "A"));
}

#[test]
fn case_is_folded_in_ascii_only() {
    assert_eq!(to_ascii_lowercase("AZaz[@É"), "azaz[@É");
}

#[test]
fn numbers_are_written() {
    assert_eq!(u128_to_string(0), "0");
    assert_eq!(u128_to_string(u128::MAX), u128::MAX.to_string());
    assert_eq!(i64_to_string(i64::MIN), "-9223372036854775808");
    assert_eq!(i64_to_string(-10), "-10");
    assert_eq!(i64_to_string(105), "105");
}

#[test]
fn text_is_cut_between_characters() {
    assert_eq!(byte_len("aé→😀"), 10);
    assert_eq!(shorten("abcdef", 3, "…"), "abc…");
    assert_eq!(shorten("abc", 3, "…"), "abc");
    assert_eq!(shorten("aé→", 5, "."), "aé.");
    assert_eq!(shorten("😀", 3, "..."), "...");
    assert_eq!(string_from(&chars_of("abc"), 1, 2), "b");
}

#[test]
fn text_is_laid_out() {
    assert_eq!(pad_right("é", 3), format!("{:<3}", "é"));
    assert_eq!(pad_right("abcd", 3), "abcd");
    assert_eq!(pad_left("7", 4), format!("{:>4}", 7));
    assert_eq!(pad_left("abcd", 3), "abcd");
    assert_eq!(join(&vec!["a".into(), "".into(), "c".into()], ","), "a,,c");
    assert_eq!(join(&vec![], ","), "");
}

#[test]
fn order_is_that_of_strings() {
    let words = ["", "a", "aa", "ab", "b", "é", "zz", "\u{ffff}", "😀"];
    for a in words {
        for b in words {
            assert_eq!(not_after(a, b), a <= b, "{a:?} {b:?}");
        }
    }
}
