use media_mcp::text::{
    is_whitespace, join_strings, lines_of, parse_i32, split_of, starts_with, str_eq, trim_str,
    u64_to_decimal,
};

fn chars(s: &str) -> Vec<char> {
    s.chars().collect()
}

fn strings(v: Vec<Vec<char>>) -> Vec<String> {
    v.into_iter().map(|l| l.into_iter().collect()).collect()
}

#[test]
fn trim_matches_std() {
    for s in ["  hello \n", "\t\u{3000}x y\u{a0}", "", "   ", "abc", "\u{2028}a\u{85}"] {
        assert_eq!(trim_str(s), s.trim());
    }
}

#[test]
fn whitespace_matches_std() {
    for c in [' ', '\t', '\n', '\u{b}', '\u{c}', '\r', '\u{85}', '\u{a0}', '\u{1680}', '\u{2000}', '\u{200a}', '\u{2028}', '\u{2029}', '\u{202f}', '\u{205f}', '\u{3000}', 'a', '\u{200b}', '\u{feff}'] {
        assert_eq!(is_whitespace(c), c.is_whitespace(), "{:?}", c);
    }
}

#[test]
fn decimal_rendering() {
    assert_eq!(u64_to_decimal(0), "0");
    assert_eq!(u64_to_decimal(7), "7");
    assert_eq!(u64_to_decimal(1920), "1920");
    assert_eq!(u64_to_decimal(u64::MAX), u64::MAX.to_string());
}

#[test]
fn parse_i32_matches_std() {
    for s in ["5", "+5", "-3", "0005", "abc", "", "+", "-", "2147483647", "2147483648", "-2147483648", "-2147483649", "99999999999999", " 5", "5 "] {
        assert_eq!(parse_i32(&chars(s)), s.parse::<i32>().ok(), "{:?}", s);
    }
}

#[test]
fn lines_match_std() {
    for s in ["a\r\nb\n", "", "\n", "a\nb", "a\r", "x\n\ny\r\n\r\n", "single"] {
        let expected: Vec<String> = s.lines().map(|l| l.to_string()).collect();
        assert_eq!(strings(lines_of(&chars(s))), expected, "{:?}", s);
    }
}

#[test]
fn split_matches_std() {
    for s in ["a\tb\tc", "", "\t", "a\t\tb\t"] {
        let expected: Vec<String> = s.split('\t').map(|l| l.to_string()).collect();
        assert_eq!(strings(split_of(&chars(s), '\t')), expected, "{:?}", s);
    }
}

#[test]
fn join_and_compare() {
    let parts = vec!["a".to_string(), "".to_string(), "c".to_string()];
    assert_eq!(join_strings(&parts, ", "), "a, , c");
    assert_eq!(join_strings(&vec![], "+"), "");
    assert!(str_eq("image/png", "image/png"));
    assert!(!str_eq("image/png", "image/pn"));
    assert!(starts_with("image/png", "image/"));
    assert!(!starts_with("imag", "image/"));
}
