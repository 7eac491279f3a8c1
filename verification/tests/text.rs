use ratspatcher::text::{concat2, concat3, contains_char, decimal_text, find_char_from, is_whitespace, same_text, trim_str};

#[test]
fn trim_removes_unicode_white_space() {
    assert_eq!(trim_str("  owner/repo \t\n"), "owner/repo");
    assert_eq!(trim_str("\u{3000}x\u{a0}"), "x");
    assert_eq!(trim_str("   "), "");
    assert_eq!(trim_str(""), "");
    assert_eq!(trim_str("a b"), "a b");
}

#[test]
fn whitespace_matches_std() {
    for c in ['\t', '\n', ' ', '\u{85}', '\u{a0}', '\u{1680}', '\u{2000}', '\u{200a}', '\u{2028}', '\u{3000}', 'a', '0', '\u{200b}', '/'] {
        assert_eq!(is_whitespace(c), c.is_whitespace(), "{:?}", c);
    }
}

#[test]
fn find_and_contains() {
    assert!(contains_char("a/b", '/'));
    assert!(!contains_char("ab", '/'));
    assert_eq!(find_char_from("a/b/c", '/', 0), 1);
    assert_eq!(find_char_from("a/b/c", '/', 2), 3);
    assert_eq!(find_char_from("abc", '/', 0), 3);
}

#[test]
fn decimal_and_concat() {
    assert_eq!(decimal_text(0), "0");
    assert_eq!(decimal_text(30), "30");
    assert_eq!(decimal_text(1234567890), "1234567890");
    assert_eq!(concat2("a", "b"), "ab");
    assert_eq!(concat3("a", "b", "c"), "abc");
    assert!(same_text("x", "x"));
    assert!(!same_text("x", "y"));
}
