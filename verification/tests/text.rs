use zonaris::text::{
    chars_of, decimal_string, find_char, parse_u32, same_text, signed_decimal_string, split_lines,
    substring,
};

#[test]
fn decimal_notation() {
    assert_eq!(decimal_string(0), "0");
    assert_eq!(decimal_string(7), "7");
    assert_eq!(decimal_string(10), "10");
    assert_eq!(decimal_string(1234567890), "1234567890");
    assert_eq!(decimal_string(u64::MAX), "18446744073709551615");
    assert_eq!(signed_decimal_string(0), "0");
    assert_eq!(signed_decimal_string(-1), "-1");
    assert_eq!(signed_decimal_string(i64::MAX), "9223372036854775807");
    assert_eq!(signed_decimal_string(i64::MIN), "-9223372036854775808");
}

#[test]
fn unsigned_fields_are_parsed() {
    let chars = chars_of("ab+123cd4294967295x4294967296");
    assert_eq!(parse_u32(&chars, 2, 6), Some(123));
    assert_eq!(parse_u32(&chars, 3, 6), Some(123));
    assert_eq!(parse_u32(&chars, 2, 3), None);
    assert_eq!(parse_u32(&chars, 3, 3), None);
    assert_eq!(parse_u32(&chars, 0, 2), None);
    assert_eq!(parse_u32(&chars, 3, 7), None);
    assert_eq!(parse_u32(&chars, 8, 18), Some(u32::MAX));
    assert_eq!(parse_u32(&chars, 19, 29), None);
    let zeros = chars_of("0000000000000000000000017");
    assert_eq!(parse_u32(&zeros, 0, zeros.len()), Some(17));
    let long = chars_of("99999999999999999999999999999999");
    assert_eq!(parse_u32(&long, 0, long.len()), None);
}

#[test]
fn lines_end_at_line_feeds() {
    assert_eq!(split_lines(""), Vec::<String>::new());
    assert_eq!(split_lines("a"), vec!["a"]);
    assert_eq!(split_lines("a\n"), vec!["a"]);
    assert_eq!(split_lines("a\nb"), vec!["a", "b"]);
    assert_eq!(split_lines("a\r\nb\r\n"), vec!["a", "b"]);
    assert_eq!(split_lines("\n"), vec![""]);
    assert_eq!(split_lines("\n\n"), vec!["", ""]);
    assert_eq!(split_lines("a\n\nb"), vec!["a", "", "b"]);
    assert_eq!(split_lines("a\rb\n"), vec!["a\rb"]);
    assert_eq!(split_lines("a\r\r\n"), vec!["a\r"]);
    assert_eq!(split_lines("a\r"), vec!["a\r"]);
    assert_eq!(split_lines("h\u{e9}\nw\u{f6}"), vec!["h\u{e9}", "w\u{f6}"]);
}

#[test]
fn lines_agree_with_the_standard_library() {
    for text in ["", "a", "a\n", "a\nb", "a\r\nb\r\n", "\n", "\r\n", "x\r\n\r\ny", "a\rb", "a\r"] {
        let expected: Vec<String> = text.lines().map(String::from).collect();
        assert_eq!(split_lines(text), expected, "{:?}", text);
    }
}

#[test]
fn characters_and_substrings() {
    let chars = chars_of("h\u{e9}llo");
    assert_eq!(chars, vec!['h', '\u{e9}', 'l', 'l', 'o']);
    assert_eq!(substring(&chars, 1, 3), "\u{e9}l");
    assert_eq!(substring(&chars, 2, 2), "");
    assert_eq!(substring(&chars, 0, 5), "h\u{e9}llo");
    assert_eq!(find_char(&chars, 0, 'l'), 2);
    assert_eq!(find_char(&chars, 3, 'l'), 3);
    assert_eq!(find_char(&chars, 4, 'l'), 5);
    assert_eq!(find_char(&chars, 5, 'l'), 5);
    assert!(same_text("abc", "abc"));
    assert!(same_text("", ""));
    assert!(!same_text("abc", "abd"));
    assert!(!same_text("abc", "ab"));
}
