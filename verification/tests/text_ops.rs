use proto::text::{
    contains, join, lines, parse_u32, parse_u64, split_on_char, str_eq, trim,
    trim_matches_char, trim_start_matches_char, u64_to_decimal, pad_left, pad_right, repeat,
    to_lowercase,
};

#[test]
fn split_keeps_empty_pieces() {
    assert_eq!(split_on_char("a.b.", '.'), vec!["a", "b", ""]);
    assert_eq!(split_on_char("", '.'), vec![""]);
    assert_eq!(split_on_char("abc", '.'), vec!["abc"]);
}

#[test]
fn lines_drop_final_newline_and_carriage_returns() {
    assert_eq!(lines("a\r\nb\n"), vec!["a", "b"]);
    assert_eq!(lines(""), Vec::<String>::new());
    assert_eq!(lines("\n"), vec![""]);
    assert_eq!(lines("x\r"), vec!["x\r"]);
    assert_eq!(lines("one\n\ntwo"), vec!["one", "", "two"]);
}

#[test]
fn trims_white_space_and_chars() {
    assert_eq!(trim("  \t hello world \n"), "hello world");
    assert_eq!(trim("\u{3000}x\u{a0}"), "x");
    assert_eq!(trim("   "), "");
    assert_eq!(trim_matches_char("\"Arch Linux\"", '"'), "Arch Linux");
    assert_eq!(trim_start_matches_char("vv1.2", 'v'), "1.2");
}

#[test]
fn contains_and_equality() {
    assert!(contains("hello", "ll"));
    assert!(contains("hello", ""));
    assert!(!contains("hello", "lo!"));
    assert!(str_eq("abc", "abc"));
    assert!(!str_eq("abc", "abd"));
}

#[test]
fn parses_unsigned_numbers_like_std() {
    assert_eq!(parse_u32("42"), Some(42));
    assert_eq!(parse_u32("+7"), Some(7));
    assert_eq!(parse_u32("007"), Some(7));
    assert_eq!(parse_u32(""), None);
    assert_eq!(parse_u32("+"), None);
    assert_eq!(parse_u32("-1"), None);
    assert_eq!(parse_u32("4294967295"), Some(u32::MAX));
    assert_eq!(parse_u32("4294967296"), None);
    assert_eq!(parse_u32("12a"), None);
    assert_eq!(parse_u64("18446744073709551615"), Some(u64::MAX));
    assert_eq!(parse_u64("18446744073709551616"), None);
    for s in ["0", "1", "99", "+12", "12 ", " 1", "4294967295", "9999999999"] {
        assert_eq!(parse_u32(s), s.parse::<u32>().ok(), "{}", s);
    }
}

#[test]
fn formats_decimal_and_padding() {
    assert_eq!(u64_to_decimal(0), "0");
    assert_eq!(u64_to_decimal(1234567890), "1234567890");
    assert_eq!(u64_to_decimal(u64::MAX), u64::MAX.to_string());
    assert_eq!(pad_left("OS", 5), "   OS");
    assert_eq!(pad_right("ab", 4), "ab  ");
    assert_eq!(pad_right("abcdef", 4), "abcdef");
    assert_eq!(repeat("─", 3), "───");
    assert_eq!(join(&vec!["a".to_string(), "b".to_string()], ", "), "a, b");
    assert_eq!(join(&vec![], ", "), "");
}

#[test]
fn lowercases_unicode() {
    assert_eq!(to_lowercase("GNOME"), "gnome");
    assert_eq!(to_lowercase("ÄÖ"), "äö");
}
