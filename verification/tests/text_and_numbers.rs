use royalnet::numbers::{parse_i32, parse_i64, parse_u32};
use royalnet::text::{decimal_i64, escape_telegram_html, join_with_newlines, push_padded2, same_text, split_once_char};

#[test]
fn escape_replaces_markup_characters() {
    assert_eq!(escape_telegram_html("a < b && c > d"), "a &lt; b &amp;&amp; c &gt; d");
}

#[test]
fn escape_keeps_plain_text() {
    assert_eq!(escape_telegram_html("Ciao, mondo! \"quoted\" 'single'"), "Ciao, mondo! \"quoted\" 'single'");
    assert_eq!(escape_telegram_html(""), "");
}

#[test]
fn escape_keeps_non_ascii_text() {
    assert_eq!(escape_telegram_html("città <è>"), "città &lt;è&gt;");
}

#[test]
fn decimal_writes_signed_numbers() {
    assert_eq!(decimal_i64(0), "0");
    assert_eq!(decimal_i64(42), "42");
    assert_eq!(decimal_i64(-7), "-7");
    assert_eq!(decimal_i64(i64::MAX), "9223372036854775807");
    assert_eq!(decimal_i64(i64::MIN), "-9223372036854775808");
}

#[test]
fn decimal_matches_std_formatting() {
    for n in [-1000i64, -99, -10, -1, 0, 1, 9, 10, 99, 100, 123456789] {
        assert_eq!(decimal_i64(n), n.to_string());
    }
}

#[test]
fn padded_numbers_have_two_digits() {
    let mut s = String::new();
    push_padded2(&mut s, 5);
    assert_eq!(s, "05");
    let mut s = String::new();
    push_padded2(&mut s, 42);
    assert_eq!(s, "42");
    let mut s = String::new();
    push_padded2(&mut s, 123);
    assert_eq!(s, "123");
    let mut s = String::new();
    push_padded2(&mut s, -5);
    assert_eq!(s, "-5");
    for n in [-12i64, -3, 0, 7, 10, 61] {
        let mut s = String::new();
        push_padded2(&mut s, n);
        assert_eq!(s, format!("{n:02}"));
    }
}

#[test]
fn lines_are_joined_by_newlines() {
    let lines = vec!["a".to_string(), "".to_string(), "c".to_string()];
    assert_eq!(join_with_newlines(&lines), "a\n\nc");
    assert_eq!(join_with_newlines(&Vec::new()), "");
    assert_eq!(join_with_newlines(&vec!["solo".to_string()]), "solo");
}

#[test]
fn split_once_splits_at_first_separator() {
    assert_eq!(split_once_char("a:b:c", ':'), Some(("a", "b:c")));
    assert_eq!(split_once_char(":x", ':'), Some(("", "x")));
    assert_eq!(split_once_char("none", ':'), None);
}

#[test]
fn same_text_compares_contents() {
    assert!(same_text("abc", "abc"));
    assert!(!same_text("abc", "abd"));
    assert!(!same_text("abc", "ab"));
}

#[test]
fn parse_i32_reads_like_std() {
    for s in ["0", "42", "-42", "+42", "2147483647", "-2147483648", "007"] {
        assert_eq!(parse_i32(s), s.parse::<i32>().ok(), "{s}");
    }
}

#[test]
fn parse_i32_rejects_like_std() {
    for s in ["", "-", "+", "2147483648", "-2147483649", "4a", " 4", "--1", "+-1"] {
        assert_eq!(parse_i32(s), None, "{s}");
        assert!(s.parse::<i32>().is_err());
    }
}

#[test]
fn parse_u32_reads_like_std() {
    for s in ["0", "6", "+6", "4294967295", "4294967296", "-1", "", "x"] {
        assert_eq!(parse_u32(s), s.parse::<u32>().ok(), "{s}");
    }
}

#[test]
fn parse_i64_reads_like_std() {
    for s in ["9223372036854775807", "-9223372036854775808", "9223372036854775808", "12", "-", "1 2"] {
        assert_eq!(parse_i64(s), s.parse::<i64>().ok(), "{s}");
    }
}

#[test]
fn decimal_reads_back() {
    for n in [i64::MIN, -123, -1, 0, 1, 77, i64::MAX] {
        assert_eq!(parse_i64(&decimal_i64(n)), Some(n));
    }
}
