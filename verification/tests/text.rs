use torquebridge::text::{
    eq_ignore_ascii_case, find_char, i64_to_decimal, is_whitespace, parse_i32, str_eq, trim,
    u64_to_decimal,
};

#[test]
fn decimal_text_matches_display() {
    for n in [0u64, 7, 10, 99, 1_000_001, u64::MAX] {
        assert_eq!(u64_to_decimal(n), n.to_string());
    }
    for n in [0i64, -1, 42, -9_000, i64::MIN, i64::MAX] {
        assert_eq!(i64_to_decimal(n), n.to_string());
    }
}

#[test]
fn parse_i32_agrees_with_str_parse() {
    for text in [
        "0", "42", "-42", "+7", "2147483647", "-2147483648", "2147483648", "-2147483649", "",
        "-", "+", "1a", " 1", "007", "--1", "99999999999999999999",
    ] {
        assert_eq!(parse_i32(text), text.parse::<i32>().ok(), "{text:?}");
    }
}

#[test]
fn whitespace_follows_char_is_whitespace() {
    for c in ['\t', '\n', '\u{b}', '\u{c}', '\r', ' ', '\u{85}', '\u{a0}', '\u{1680}', '\u{2000}',
        '\u{200a}', '\u{2028}', '\u{2029}', '\u{202f}', '\u{205f}', '\u{3000}', 'a', '0', '-',
        '\u{180e}', '\u{200b}', '\u{feff}']
    {
        assert_eq!(is_whitespace(c), c.is_whitespace(), "{c:?}");
    }
    for code in 0u32..0x3100 {
        if let Some(c) = char::from_u32(code) {
            assert_eq!(is_whitespace(c), c.is_whitespace(), "{code:#x}");
        }
    }
}

#[test]
fn trim_matches_str_trim() {
    for text in ["", "  ", " a ", "\u{3000}b\t", "a b", "\n\nx"] {
        assert_eq!(trim(text), text.trim());
    }
}

#[test]
fn text_comparisons_and_search() {
    assert!(str_eq("abc", "abc"));
    assert!(!str_eq("abc", "abd"));
    assert!(eq_ignore_ascii_case("FFBeast Drift", "ffbeast DRIFT"));
    assert!(!eq_ignore_ascii_case("Ä", "ä"));
    assert_eq!(find_char("a(b)c(", '(', 0), Some(1));
    assert_eq!(find_char("a(b)c(", '(', 2), Some(5));
    assert_eq!(find_char("a(b)c(", ')', 4), None);
    assert_eq!(find_char("ab", 'a', 5), None);
}
