use payloadexchange_mvp::text::{
    joined, is_blank, is_whitespace, str_eq, to_decimal, trim, trim_end_slashes,
};

#[test]
fn whitespace_agrees_with_the_standard_library() {
    let mut code: u32 = 0;
    while code <= 0x10FFFF {
        if let Some(c) = char::from_u32(code) {
            assert_eq!(is_whitespace(c), c.is_whitespace(), "code point {code:#x}");
        }
        code += 1;
    }
}

#[test]
fn trim_removes_white_space_at_both_ends() {
    assert_eq!(trim("  abc  "), "abc");
    assert_eq!(trim("\t\n abc def \r\n"), "abc def");
    assert_eq!(trim("abc"), "abc");
    assert_eq!(trim(""), "");
    assert_eq!(trim("   "), "");
    assert_eq!(trim("\u{a0}x\u{3000}"), "x");
    assert_eq!(trim(" é ü "), "é ü");
}

#[test]
fn trim_agrees_with_the_standard_library() {
    for s in ["", " ", "a", " a", "a ", " a b ", "\u{2003}ä\u{2003}", "\n\n", "x\ty"] {
        assert_eq!(trim(s), s.trim());
        assert_eq!(is_blank(s), s.trim().is_empty());
    }
}

#[test]
fn trailing_slashes_are_removed() {
    assert_eq!(trim_end_slashes("http://localhost:3000/"), "http://localhost:3000");
    assert_eq!(trim_end_slashes("http://localhost:3000///"), "http://localhost:3000");
    assert_eq!(trim_end_slashes("http://localhost:3000"), "http://localhost:3000");
    assert_eq!(trim_end_slashes("/a/b"), "/a/b");
    assert_eq!(trim_end_slashes("///"), "");
    assert_eq!(trim_end_slashes(""), "");
}

#[test]
fn decimal_numerals() {
    assert_eq!(to_decimal(0), "0");
    assert_eq!(to_decimal(7), "7");
    assert_eq!(to_decimal(10), "10");
    assert_eq!(to_decimal(300), "300");
    assert_eq!(to_decimal(1234567890), "1234567890");
    assert_eq!(to_decimal(u128::MAX), u128::MAX.to_string());
}

#[test]
fn texts_compare_by_their_characters() {
    assert!(str_eq("scraping", "scraping"));
    assert!(!str_eq("scraping", "Scraping"));
    assert!(!str_eq("a", "ab"));
    assert!(str_eq("", ""));
    assert_eq!(joined("ab", "cd"), "abcd");
}

#[test]
fn numbers_are_read_like_the_standard_library_reads_them() {
    let samples = [
        "", "+", "-", "0", "+0", "-0", "7", "007", "+42", "42+", "4 2", " 42", "42 ", "4_2", "0x10",
        "18446744073709551615", "18446744073709551616", "+18446744073709551615",
        "99999999999999999999999", "١٢٣", "1e3", "++1", "+-1", "1.0", "00000000000000000000000001",
        "184467440737095516150", "18446744073709551615a",
    ];
    for s in samples {
        assert_eq!(payloadexchange_mvp::text::parse_u64(s), s.parse::<u64>().ok(), "{s:?}");
    }
    for n in [0u64, 1, 9, 10, 99, 100, 12345, u64::MAX - 1, u64::MAX] {
        assert_eq!(payloadexchange_mvp::text::parse_u64(&n.to_string()), Some(n));
    }
}
