use direct_decl::escapes::{strip_quotes, unescape_double, unescape_single};
use direct_decl::text::{str_compare, str_eq, str_starts_with, usize_to_dec_string};

#[test]
fn decimal_rendering() {
    assert_eq!(usize_to_dec_string(0), "0");
    assert_eq!(usize_to_dec_string(9), "9");
    assert_eq!(usize_to_dec_string(907), "907");
    assert_eq!(usize_to_dec_string(1000), "1000");
}

#[test]
fn starts_with_and_eq() {
    assert!(str_starts_with("class@anonymous123", "class@anonymous"));
    assert!(!str_starts_with("class@anon", "class@anonymous"));
    assert!(str_starts_with("abc", ""));
    assert!(str_eq("abc", "abc"));
    assert!(!str_eq("abc", "abd"));
    assert!(!str_eq("abc", "ab"));
}

#[test]
fn string_comparison_is_lexicographic() {
    assert_eq!(str_compare("a", "b"), std::cmp::Ordering::Less);
    assert_eq!(str_compare("b", "a"), std::cmp::Ordering::Greater);
    assert_eq!(str_compare("abc", "abc"), std::cmp::Ordering::Equal);
    assert_eq!(str_compare("ab", "abc"), std::cmp::Ordering::Less);
    assert_eq!(str_compare("abd", "abc"), std::cmp::Ordering::Greater);
}

#[test]
fn single_quote_escapes() {
    assert_eq!(unescape_single("a\\'b\\\\c"), "a'b\\c");
    assert_eq!(unescape_single("a\\nb"), "a\\nb");
    assert_eq!(unescape_single(""), "");
}

#[test]
fn double_quote_escapes() {
    assert_eq!(unescape_double("a\\nb"), "a\nb");
    assert_eq!(unescape_double("t\\tv\\v"), "t\tv\u{000B}");
    assert_eq!(unescape_double("\\$x\\`y\\\"z"), "$x`y\"z");
    // An unrecognised escape keeps the backslash and the character.
    assert_eq!(unescape_double("a\\qb"), "a\\qb");
}

#[test]
fn quote_stripping() {
    assert_eq!(strip_quotes("'abc'"), "abc");
    assert_eq!(strip_quotes("\"abc\""), "abc");
    assert_eq!(strip_quotes("abc"), "abc");
    assert_eq!(strip_quotes("'abc\""), "'abc\"");
    assert_eq!(strip_quotes("'"), "'");
}
