use restless::text::{
    char_is_whitespace, clone_pairs, concat_str, contains_char, contains_chars, contains_line_break,
    format_decimal, is_blank_text, parse_usize, same_text, starts_with, to_chars, trimmed,
};

#[test]
fn white_space_is_what_the_standard_library_says() {
    for n in 0u32..0x11_0000 {
        if let Some(c) = char::from_u32(n) {
            assert_eq!(char_is_whitespace(c), c.is_whitespace(), "U+{:04X}", n);
        }
    }
}

#[test]
fn trimming_agrees_with_the_standard_library() {
    let cases = [
        "",
        " ",
        "a",
        " a ",
        "\t\r\n a b \u{a0}\u{3000}",
        "\u{2003}x\u{2003}",
        "\u{200b}x\u{200b}",
        "   ",
        "a  b",
    ];
    for case in cases {
        assert_eq!(trimmed(case), case.trim(), "{:?}", case);
        assert_eq!(is_blank_text(case), case.trim().is_empty(), "{:?}", case);
    }
}

#[test]
fn searching_in_text() {
    assert!(contains_char("a:b", ':'));
    assert!(!contains_char("", ':'));
    assert!(contains_line_break("a\rb"));
    assert!(contains_line_break("\n"));
    assert!(!contains_line_break("a b"));
    assert!(starts_with("http://x", "http://"));
    assert!(starts_with("x", ""));
    assert!(!starts_with("http:/", "http://"));
    assert!(!starts_with("Http://x", "http://"));
    assert!(same_text("\u{e9}", "\u{e9}"));
    assert!(!same_text("a", "ab"));
    assert!(!same_text("ab", "ac"));
    let hay = to_chars("application/json; charset=utf-8");
    assert!(contains_chars(&hay, &to_chars("json")));
    assert!(contains_chars(&hay, &to_chars("")));
    assert!(contains_chars(&hay, &hay));
    assert!(!contains_chars(&hay, &to_chars("xml")));
    assert!(!contains_chars(&to_chars("ab"), &to_chars("abc")));
    assert!(contains_chars(&to_chars("aab"), &to_chars("ab")));
}

#[test]
fn numbers_are_written_and_read() {
    assert_eq!(format_decimal(0), "0");
    assert_eq!(format_decimal(9), "9");
    assert_eq!(format_decimal(10), "10");
    assert_eq!(format_decimal(1205), "1205");
    assert_eq!(format_decimal(u64::MAX), u64::MAX.to_string());
    for text in ["0", "1", "+1", "00", "123456", "", "+", "++1", "-1", " 1", "1 ", "1_0", "\u{661}"] {
        assert_eq!(parse_usize(text), text.parse::<usize>().ok(), "{:?}", text);
    }
    let max = usize::MAX.to_string();
    assert_eq!(parse_usize(&max), Some(usize::MAX));
    let over = format!("{}0", max);
    assert_eq!(parse_usize(&over), None);
}

#[test]
fn texts_are_joined_and_copied() {
    assert_eq!(concat_str("a", "b"), "ab");
    assert_eq!(concat_str("", ""), "");
    let pairs = vec![("a".to_string(), "1".to_string()), ("b".to_string(), "2".to_string())];
    assert_eq!(clone_pairs(&pairs), pairs);
    assert_eq!(to_chars("h\u{e9}"), vec!['h', '\u{e9}']);
}
