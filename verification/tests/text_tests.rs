use focus_task::text::{
    chars_of, contains, debug_quote, decode_lossy, decode_strict, escape_double_quotes_with_backtick,
    push_decimal, same_text, starts_with, trim,
};

#[test]
fn trim_removes_unicode_whitespace_on_both_sides() {
    assert_eq!(trim("  \t hello world \n\r "), "hello world");
    assert_eq!(trim("\u{3000}\u{a0}x\u{2028}"), "x");
    assert_eq!(trim("inner  space"), "inner  space");
}

#[test]
fn trim_matches_std_on_samples() {
    for s in ["", "   ", "\u{85}a\u{85}", " a b ", "\u{200b}z", "\u{205f}\u{2009}q\u{1680}"] {
        assert_eq!(trim(s), s.trim());
    }
}

#[test]
fn trim_of_blank_is_empty() {
    assert_eq!(trim(" \t\n"), "");
    assert_eq!(trim(""), "");
}

#[test]
fn trim_twice_is_trim_once() {
    let s = "  \u{2003}value\t ";
    assert_eq!(trim(&trim(s)), trim(s));
}

#[test]
fn contains_and_starts_with() {
    assert!(contains("execution error: User canceled. (-128)", "-128"));
    assert!(!contains("error -12", "-128"));
    assert!(contains("abc", ""));
    assert!(!contains("", "a"));
    assert!(starts_with("HTTP/1.1 200 OK", "HTTP/1.1 200"));
    assert!(!starts_with("HTTP/1.1 500", "HTTP/1.1 200"));
    assert!(!starts_with("HTTP", "HTTP/1.1 200"));
}

#[test]
fn same_text_compares_contents() {
    assert!(same_text("main", "main"));
    assert!(!same_text("main", "mainx"));
    assert!(!same_text("Main", "main"));
}

#[test]
fn chars_of_keeps_every_char() {
    assert_eq!(chars_of("a中b"), vec!['a', '中', 'b']);
}

#[test]
fn push_decimal_prints_numbers() {
    let mut s = String::from("n=");
    push_decimal(&mut s, 0);
    assert_eq!(s, "n=0");
    let mut s = String::new();
    push_decimal(&mut s, 1234567890123456789012345678);
    assert_eq!(s, "1234567890123456789012345678");
    let mut s = String::new();
    push_decimal(&mut s, u128::MAX);
    assert_eq!(s, u128::MAX.to_string());
}

#[test]
fn backtick_escape_of_quotes() {
    assert_eq!(escape_double_quotes_with_backtick("say \"hi\""), "say `\"hi`\"");
    assert_eq!(escape_double_quotes_with_backtick("plain text"), "plain text");
}

#[test]
fn debug_quote_matches_std_debug() {
    for s in [
        "",
        "plain",
        "it's \"quoted\" \\ back",
        "tab\tnew\nline\rnul\0",
        "中文 备份",
        "bell\u{7}del\u{7f}",
        "e\u{301}",
        "zero\u{200b}width",
        "emoji 😀",
    ] {
        assert_eq!(debug_quote(s), format!("{:?}", s));
    }
}

#[test]
fn debug_quote_of_plain_text_is_quoted_verbatim() {
    assert_eq!(debug_quote("backup.json"), "\"backup.json\"");
}

#[test]
fn decode_lossy_replaces_invalid_bytes() {
    assert_eq!(decode_lossy(b"ok"), "ok");
    assert_eq!(decode_lossy(&[0x61, 0xff, 0x62]), "a\u{fffd}b");
}

#[test]
fn decode_strict_rejects_invalid_bytes() {
    assert_eq!(decode_strict(b"/tmp/x".to_vec()), Ok("/tmp/x".to_string()));
    let err = decode_strict(vec![0xff]).unwrap_err();
    assert_eq!(err, String::from_utf8(vec![0xff]).unwrap_err().to_string());
}

#[test]
fn quoted_ascii_text_escapes_every_special_character() {
    let q = debug_quote("name\"; do shell script \"x\\\n\r\t\0");
    assert_eq!(q, "\"name\\\"; do shell script \\\"x\\\\\\n\\r\\t\\0\"");
    assert!(!q[1..q.len() - 1].contains('\n'));
}
