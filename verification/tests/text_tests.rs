use openvpn3_gui::text::{
    chars_of, concat3, contains, decimal_text, find, first_word, parse_u64, second_split_piece,
    split_lines, split_once, starts_with, trim, trim_start_char,
};

#[test]
fn trim_removes_unicode_whitespace() {
    assert_eq!(trim("  \t hello world \r\n"), "hello world");
    assert_eq!(trim("\u{a0}\u{3000}x\u{2009}"), "x");
    assert_eq!(trim("   "), "");
    assert_eq!(trim(""), "");
}

#[test]
fn lines_follow_str_lines() {
    let text = "a\r\nb\n\nc\rd\n";
    let expected: Vec<String> = text.lines().map(|s| s.to_string()).collect();
    assert_eq!(split_lines(text), expected);
    assert_eq!(split_lines("one"), vec!["one".to_string()]);
    assert!(split_lines("").is_empty());
    assert_eq!(split_lines("x\r"), vec!["x\r".to_string()]);
}

#[test]
fn find_and_contains_count_characters() {
    assert_eq!(find("ab..cd", ".."), Some(2));
    assert_eq!(find("äöü..", ".."), Some(3));
    assert_eq!(find("abc", "x"), None);
    assert_eq!(find("abc", ""), Some(0));
    assert!(contains("Status: Connection, Client connected", "Client connected"));
    assert!(!contains("abc", "abd"));
    assert!(starts_with("Path: /x", "Path:"));
    assert!(!starts_with("Pa", "Path:"));
}

#[test]
fn split_helpers_match_std() {
    assert_eq!(
        split_once("key: value: more", ":"),
        Some(("key".to_string(), " value: more".to_string()))
    );
    assert_eq!(split_once("none", ":"), None);
    assert_eq!(second_split_piece("a:b:c", ":"), Some("b".to_string()));
    assert_eq!(second_split_piece("a:b", ":"), Some("b".to_string()));
    assert_eq!(second_split_piece("ab", ":"), None);
    assert_eq!(first_word("  alpha beta"), Some("alpha".to_string()));
    assert_eq!(first_word(" \t "), None);
    assert_eq!(trim_start_char("...7", '.'), "7");
}

#[test]
fn parse_u64_matches_std() {
    for s in [
        "0",
        "42",
        "+7",
        "+",
        "",
        "-1",
        "12a",
        "18446744073709551615",
        "18446744073709551616",
        "00012",
        " 1",
    ] {
        assert_eq!(parse_u64(s), s.parse::<u64>().ok(), "input {:?}", s);
    }
}

#[test]
fn decimal_text_matches_display() {
    for n in [0usize, 7, 10, 99, 1000, 123456789] {
        assert_eq!(decimal_text(n), n.to_string());
    }
}

#[test]
fn chars_and_concat() {
    assert_eq!(chars_of("héllo"), vec!['h', 'é', 'l', 'l', 'o']);
    assert_eq!(concat3("a", "b", "c"), "abc");
}
