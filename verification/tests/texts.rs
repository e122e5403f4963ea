//! Numbers and paths as text.

use gitea_forge::text::{decimal_text, same_text, strip_dot_slash, take_chars};


#[test]
fn numbers_are_written_in_decimal() {
    assert_eq!(decimal_text(0), "0");
    assert_eq!(decimal_text(9), "9");
    assert_eq!(decimal_text(10), "10");
    assert_eq!(decimal_text(1234567890), "1234567890");
    assert_eq!(decimal_text(u64::MAX), "18446744073709551615");
}

#[test]
fn first_characters_are_taken() {
    assert_eq!(take_chars("0123456789abcdef", 8), "01234567");
    assert_eq!(take_chars("012", 8), "012");
    assert_eq!(take_chars("\u{e4}\u{f6}\u{fc}", 2), "\u{e4}\u{f6}");
    assert_eq!(take_chars("", 8), "");
}

#[test]
fn one_leading_dot_slash_is_taken_off() {
    assert_eq!(strip_dot_slash("./a/b"), "a/b");
    assert_eq!(strip_dot_slash("././a"), "./a");
    assert_eq!(strip_dot_slash("a/./b"), "a/./b");
    assert_eq!(strip_dot_slash(".a"), ".a");
    assert_eq!(strip_dot_slash("."), ".");
    assert_eq!(strip_dot_slash(""), "");
}

#[test]
fn texts_are_compared() {
    assert!(same_text("ab", "ab"));
    assert!(!same_text("ab", "abc"));
}
