use currency_converter_cli::text::{
    contains, is_space, join3, parse_i32, parse_u32, same_text, trim,
};

fn texts_over(alphabet: &[char], longest: usize) -> Vec<String> {
    let mut texts = vec![String::new()];
    let mut last = vec![String::new()];
    for _ in 0..longest {
        let mut next = Vec::new();
        for text in &last {
            for c in alphabet {
                let mut longer = text.clone();
                longer.push(*c);
                next.push(longer);
            }
        }
        texts.extend(next.iter().cloned());
        last = next;
    }
    texts
}

#[test]
fn test_parse_i32_values() {
    assert_eq!(parse_i32("0"), Some(0));
    assert_eq!(parse_i32("24"), Some(24));
    assert_eq!(parse_i32("+24"), Some(24));
    assert_eq!(parse_i32("-24"), Some(-24));
    assert_eq!(parse_i32("-0"), Some(0));
    assert_eq!(parse_i32("007"), Some(7));
    assert_eq!(parse_i32("2147483647"), Some(i32::MAX));
    assert_eq!(parse_i32("-2147483648"), Some(i32::MIN));
    assert_eq!(parse_i32("00000000000000000002147483647"), Some(i32::MAX));
    assert_eq!(parse_i32("2147483648"), None);
    assert_eq!(parse_i32("-2147483649"), None);
    assert_eq!(parse_i32("99999999999999999999999999"), None);
    assert_eq!(parse_i32(""), None);
    assert_eq!(parse_i32("+"), None);
    assert_eq!(parse_i32("-"), None);
    assert_eq!(parse_i32("1 "), None);
    assert_eq!(parse_i32(" 1"), None);
    assert_eq!(parse_i32("1.0"), None);
    assert_eq!(parse_i32("1e3"), None);
    assert_eq!(parse_i32("\u{663}"), None);
    assert_eq!(parse_i32("1\u{ff11}"), None);
}

#[test]
fn test_parse_u32_values() {
    assert_eq!(parse_u32("0"), Some(0));
    assert_eq!(parse_u32("+12"), Some(12));
    assert_eq!(parse_u32("4294967295"), Some(u32::MAX));
    assert_eq!(parse_u32("4294967296"), None);
    assert_eq!(parse_u32("-0"), None);
    assert_eq!(parse_u32("-1"), None);
    assert_eq!(parse_u32(""), None);
    assert_eq!(parse_u32("+"), None);
    assert_eq!(parse_u32("12a"), None);
}

#[test]
fn test_parsers_agree_with_the_standard_ones() {
    let mut texts = texts_over(&['0', '1', '9', '+', '-', ' ', 'a'], 5);
    for text in [
        "2147483646",
        "2147483647",
        "2147483648",
        "2147483649",
        "-2147483647",
        "-2147483648",
        "-2147483649",
        "+2147483647",
        "+2147483648",
        "4294967294",
        "4294967295",
        "4294967296",
        "+4294967295",
        "-4294967295",
        "21474836470",
        "42949672950",
        "18446744073709551616",
        "000004294967295",
        "1\u{0661}",
    ] {
        texts.push(text.to_string());
    }
    for text in texts {
        assert_eq!(parse_i32(&text), text.parse::<i32>().ok(), "{:?}", text);
        assert_eq!(parse_u32(&text), text.parse::<u32>().ok(), "{:?}", text);
    }
}

#[test]
fn test_text_helpers() {
    assert!(same_text("abc", "abc"));
    assert!(!same_text("abc", "abd"));
    assert!(!same_text("abc", "ab"));
    assert!(same_text("", ""));
    assert_eq!(join3("a", "/", "b"), "a/b");
    assert_eq!(join3("", "", ""), "");
}

#[test]
fn test_white_space_is_what_the_standard_library_trims() {
    let mut code: u32 = 0;
    while code <= 0x10ffff {
        if let Some(c) = char::from_u32(code) {
            assert_eq!(is_space(c), c.is_whitespace(), "{:x}", code);
        }
        code += 1;
    }
}

#[test]
fn test_trim() {
    assert_eq!(trim("  abc \n"), "abc");
    assert_eq!(trim("abc"), "abc");
    assert_eq!(trim(""), "");
    assert_eq!(trim(" \t\r\n"), "");
    assert_eq!(trim("a b"), "a b");
    assert_eq!(trim("\u{3000}a \u{a0}b\u{2003}"), "a \u{a0}b");
    assert_eq!(trim("\u{200b}a\u{200b}"), "\u{200b}a\u{200b}");
    for text in texts_over(&[' ', '\n', 'a', '\u{e9}', '\u{2028}', '\u{180e}'], 5) {
        assert_eq!(trim(&text), text.trim(), "{:?}", text);
    }
}

#[test]
fn test_contains() {
    assert!(contains("API_KEY=abc", "API_KEY"));
    assert!(contains("xAPI_KEY", "API_KEY"));
    assert!(!contains("API_KE", "API_KEY"));
    assert!(contains("abc", ""));
    assert!(contains("", ""));
    assert!(!contains("", "a"));
    assert!(contains("na\u{ef}ve caf\u{e9}", "caf\u{e9}"));
    let texts = texts_over(&['a', 'b', '\u{e9}'], 4);
    for text in &texts {
        for part in &texts {
            if part.chars().count() <= 3 {
                assert_eq!(contains(text, part), text.contains(part.as_str()), "{:?} {:?}", text, part);
            }
        }
    }
}
