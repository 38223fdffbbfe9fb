use vps_toolkit::scan::{
    after_spaces, after_word, char_is_space, chars_of, contains, field, find_char, lines,
    parse_number, rfind_char, same_text, trim, NumberError,
};

#[test]
fn white_space_is_that_of_the_standard_library() {
    for code in 0u32..0x3100 {
        if let Some(c) = char::from_u32(code) {
            assert_eq!(char_is_space(c), c.is_whitespace(), "U+{:04X}", code);
        }
    }
    assert!(!char_is_space('\u{feff}'));
    assert!(!char_is_space('\u{10ffff}'));
}

#[test]
fn trim_removes_spaces_at_both_ends() {
    for s in ["", " ", "   ", "a", " a", "a ", "  a b  ", "\t\n x \r\n", "\u{3000}端口\u{a0}", "a\u{2003}b "] {
        assert_eq!(trim(s), s.trim(), "{:?}", s);
    }
    assert_eq!(trim("  8080/tcp \n"), "8080/tcp");
}

#[test]
fn skipping_spaces_and_words() {
    let s = "  ab  c";
    assert_eq!(after_spaces(s, 0), 2);
    assert_eq!(after_spaces(s, 2), 2);
    assert_eq!(after_word(s, 2), 4);
    assert_eq!(after_spaces(s, 4), 6);
    assert_eq!(after_word(s, 6), 7);
    assert_eq!(after_spaces(s, 7), 7);
    assert_eq!(after_spaces("   ", 1), 3);
}

#[test]
fn fields_are_the_runs_between_spaces() {
    let line = "tcp   LISTEN 0   128\t0.0.0.0:22   0.0.0.0:*  ";
    for n in 0..8usize {
        assert_eq!(field(line, n), line.split_whitespace().nth(n), "field {}", n);
    }
    assert_eq!(field(line, 4), Some("0.0.0.0:22"));
    assert_eq!(field("", 0), None);
    assert_eq!(field("   ", 0), None);
    assert_eq!(field("one", 0), Some("one"));
    assert_eq!(field("one", 1), None);
    assert_eq!(field("监听 端口", 1), Some("端口"));
}

#[test]
fn finding_characters() {
    assert_eq!(find_char("a/b/c", '/', 0), 1);
    assert_eq!(find_char("a/b/c", '/', 2), 3);
    assert_eq!(find_char("a/b/c", '/', 4), 5);
    assert_eq!(find_char("abc", '/', 0), 3);
    assert_eq!(find_char("", '/', 0), 0);
    assert_eq!(rfind_char("[::]:80", ':'), Some(4));
    assert_eq!(rfind_char("80", ':'), None);
    assert_eq!(rfind_char("", ':'), None);
    assert_eq!(rfind_char(":", ':'), Some(0));
    // Positions count characters.
    assert_eq!(find_char("端口:80", ':', 0), 2);
    assert_eq!(rfind_char("端口:80", ':'), Some(2));
}

#[test]
fn contains_finds_a_text_within_a_text() {
    let cases = [
        ("", ""),
        ("abc", ""),
        ("", "a"),
        ("abc", "abc"),
        ("abc", "bc"),
        ("abc", "abcd"),
        ("aab", "ab"),
        ("tcp6 LISTEN", "tcp"),
        ("udp UNCONN", "LISTEN"),
        ("操作成功完成", "成功"),
        ("操作成完成", "成功"),
        ("sudo: a password is required", "password"),
    ];
    for (s, pat) in cases {
        assert_eq!(contains(s, pat), s.contains(pat), "{:?} in {:?}", pat, s);
    }
}

#[test]
fn lines_are_split_as_the_standard_library_splits_them() {
    for s in ["", "\n", "a", "a\n", "a\nb", "a\r\nb\r\n", "a\n\nb", "\r\n", "a\r", "a\r\n\r", "x\ry\n", "头\n尾"] {
        let expected: Vec<String> = s.lines().map(|l| l.to_string()).collect();
        assert_eq!(lines(s), expected, "{:?}", s);
    }
    assert_eq!(lines("a\r\nb\n\nc"), vec!["a", "b", "", "c"]);
}

#[test]
fn same_text_compares_character_by_character() {
    assert!(same_text("", ""));
    assert!(same_text("tcp", "tcp"));
    assert!(!same_text("tcp", "tcP"));
    assert!(!same_text("tcp", "tcp "));
    assert!(!same_text("tcp", "udp"));
}

fn kind(e: &std::num::ParseIntError) -> NumberError {
    match e.kind() {
        std::num::IntErrorKind::Empty => NumberError::Empty,
        std::num::IntErrorKind::InvalidDigit => NumberError::InvalidDigit,
        std::num::IntErrorKind::PosOverflow => NumberError::TooLarge,
        other => panic!("unexpected kind {:?}", other),
    }
}

#[test]
fn numbers_are_read_as_the_standard_library_reads_a_u16() {
    let cases = [
        "", "0", "7", "80", "8080", "65535", "65536", "65540", "99999", "100000", "+80", "+", "-",
        "-1", "++1", "+-1", "1+", " 80", "80 ", "8 0", "0080", "000000000080", "80a", "a80",
        "999999x", "9999x9", "655360", "６５", "٣",
    ];
    for s in cases {
        let got = parse_number(s, 65535);
        match s.parse::<u16>() {
            Ok(v) => assert_eq!(got, Ok(v as u64), "{:?}", s),
            Err(e) => assert_eq!(got, Err(kind(&e)), "{:?}", s),
        }
    }
}

#[test]
fn numbers_are_read_as_the_standard_library_reads_a_u64() {
    let cases = [
        "18446744073709551615",
        "18446744073709551616",
        "18446744073709551620",
        "99999999999999999999",
        "184467440737095516150",
        "1844674407370955161x",
        "0",
        "+18446744073709551615",
    ];
    for s in cases {
        let got = parse_number(s, u64::MAX);
        match s.parse::<u64>() {
            Ok(v) => assert_eq!(got, Ok(v), "{:?}", s),
            Err(e) => assert_eq!(got, Err(kind(&e)), "{:?}", s),
        }
    }
}

#[test]
fn numbers_above_the_bound_are_too_large() {
    assert_eq!(parse_number("5", 4), Err(NumberError::TooLarge));
    assert_eq!(parse_number("4", 4), Ok(4));
    assert_eq!(parse_number("0", 0), Ok(0));
    assert_eq!(parse_number("1", 0), Err(NumberError::TooLarge));
    assert_eq!(parse_number("10", 9), Err(NumberError::TooLarge));
}

#[test]
fn number_errors_in_words() {
    assert_eq!(NumberError::Empty.describe(), "cannot parse integer from empty string");
    assert_eq!(NumberError::InvalidDigit.describe(), "invalid digit found in string");
    assert_eq!(NumberError::TooLarge.describe(), "number too large to fit in target type");
    assert_eq!("".parse::<u16>().unwrap_err().to_string(), NumberError::Empty.describe());
    assert_eq!("x".parse::<u16>().unwrap_err().to_string(), NumberError::InvalidDigit.describe());
    assert_eq!("70000".parse::<u16>().unwrap_err().to_string(), NumberError::TooLarge.describe());
}

#[test]
fn chars_of_lays_a_text_out() {
    assert_eq!(chars_of(""), Vec::<char>::new());
    assert_eq!(chars_of("a端b"), vec!['a', '端', 'b']);
}

#[test]
fn scanning_a_long_text_is_one_pass() {
    // A text of this size is scanned in well under the time a test may take.
    let mut text = String::new();
    for i in 0..20_000 {
        text.push_str(&format!("processor : {} flags fpu vme de pse\n", i));
    }
    assert!(!contains(&text, "aes"));
    text.push_str("flags : aes\n");
    assert!(contains(&text, "aes"));
    assert_eq!(lines(&text).len(), 20_001);
    assert_eq!(trim(&text).len(), text.len() - 1);
}
