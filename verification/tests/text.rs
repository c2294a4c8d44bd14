use mq_docs::text::{decimal_string, join_strings, lines_of, remove_char, starts_with, trim};

#[test]
fn lines_split_at_line_feeds() {
    assert_eq!(lines_of("a\nb\nc"), vec!["a", "b", "c"]);
}

#[test]
fn lines_drop_a_carriage_return_before_a_line_feed() {
    assert_eq!(lines_of("a\r\nb\r\n"), vec!["a", "b"]);
}

#[test]
fn lines_keep_a_carriage_return_at_the_very_end() {
    assert_eq!(lines_of("a\r\nb\r"), vec!["a", "b\r"]);
}

#[test]
fn lines_of_empty_text_and_of_line_feeds() {
    assert_eq!(lines_of(""), Vec::<String>::new());
    assert_eq!(lines_of("\n"), vec![""]);
    assert_eq!(lines_of("a\n\nb\n"), vec!["a", "", "b"]);
    assert_eq!(lines_of("\r\n"), vec![""]);
}

#[test]
fn lines_agree_with_str_lines() {
    for s in ["x", "x\n", "\n\nx", "x\ry\n", "\r", "a\r\r\nb", "ü\nß\r\n"] {
        let expected: Vec<String> = s.lines().map(|l| l.to_string()).collect();
        assert_eq!(lines_of(s), expected, "lines of {s:?}");
    }
}

#[test]
fn join_strings_puts_the_separator_between_items() {
    assert_eq!(join_strings(&vec![], ", "), "");
    assert_eq!(join_strings(&vec!["a".to_string()], ", "), "a");
    assert_eq!(join_strings(&vec!["a".to_string(), "b".to_string(), "c".to_string()], ", "), "a, b, c");
}

#[test]
fn decimal_string_writes_numbers() {
    assert_eq!(decimal_string(0), "0");
    assert_eq!(decimal_string(7), "7");
    assert_eq!(decimal_string(10), "10");
    assert_eq!(decimal_string(1234567890), "1234567890");
}

#[test]
fn remove_char_removes_every_occurrence() {
    assert_eq!(remove_char("`a`b``", '`'), "ab");
    assert_eq!(remove_char("", '`'), "");
}

#[test]
fn starts_with_tests_prefixes() {
    assert!(starts_with("Built-in", "Built-in"));
    assert!(starts_with("Built-in functions", "Built-in"));
    assert!(!starts_with("Built", "Built-in"));
    assert!(starts_with("x", ""));
}

#[test]
fn trim_removes_unicode_white_space_at_both_ends() {
    assert_eq!(trim("  a b \t\n"), "a b");
    assert_eq!(trim("\u{3000}x\u{85}\u{a0}"), "x");
    assert_eq!(trim(""), "");
    assert_eq!(trim(" \r\n "), "");
    for s in ["\u{2000}y\u{200a}", "\u{200b}z", "\u{1680}\u{2028}q\u{2029}\u{202f}\u{205f}", "\x0bv\x0c"] {
        assert_eq!(trim(s), s.trim(), "trim of {s:?}");
    }
}
