//! Text helpers.

use navop_workbench::text::{
    chars_of, contains, decimal, eq_ignore_ascii_case, is_blank, trim, white_space,
};

#[test]
fn white_space_is_that_of_unicode() {
    for c in '\0'..=char::MAX {
        assert_eq!(white_space(c), c.is_whitespace(), "{:?}", c);
    }
}

#[test]
fn trimming_removes_white_space_at_both_ends_only() {
    for text in ["", " ", "a", " a ", "\t a b \r\n", "\u{3000}名\u{2003}", "a\u{200b}", "\u{85}x"] {
        assert_eq!(trim(text), text.trim());
        assert_eq!(is_blank(text), text.trim().is_empty());
    }
}

#[test]
fn decimals_have_no_leading_zeros() {
    for n in [0, 9, 10, 101, 999_999, u64::MAX as u128, u128::MAX] {
        assert_eq!(decimal(n), n.to_string());
    }
}

#[test]
fn a_needle_is_found_anywhere() {
    let cases = [
        ("", ""),
        ("abc", ""),
        ("abc", "abc"),
        ("abc", "bc"),
        ("abc", "abcd"),
        ("aab", "ab"),
        ("naïve 名前", "ve 名"),
        ("naïve", "naive"),
        ("", "a"),
    ];
    for (text, needle) in cases {
        assert_eq!(contains(text, needle), text.contains(needle), "{text:?} {needle:?}");
    }
}

#[test]
fn ascii_case_is_ignored_and_no_other() {
    let cases = [
        ("Set-Cookie", "set-cookie"),
        ("SET-COOKIE", "sEt-CoOkIe"),
        ("set-cookie", "set-cookies"),
        ("set_cookie", "set-cookie"),
        ("É", "é"),
        ("@", "`"),
        ("[", "{"),
        ("K", "\u{212a}"),
    ];
    for (a, b) in cases {
        assert_eq!(eq_ignore_ascii_case(a, b), a.eq_ignore_ascii_case(b), "{a:?} {b:?}");
    }
}

#[test]
fn the_characters_of_a_text_are_its_scalar_values() {
    assert_eq!(chars_of("aé名"), vec!['a', 'é', '名']);
    assert!(chars_of("").is_empty());
}
