use user_books::json::json_string;
use user_books::text::str_eq;

#[test]
fn json_string_plain() {
    assert_eq!(json_string("abc"), "\"abc\"");
    assert_eq!(json_string(""), "\"\"");
}

#[test]
fn json_string_quote_and_backslash() {
    assert_eq!(json_string("a\"b"), "\"a\\\"b\"");
    assert_eq!(json_string("a\\b"), "\"a\\\\b\"");
}

#[test]
fn json_string_short_escapes() {
    assert_eq!(json_string("a\nb"), "\"a\\nb\"");
    assert_eq!(json_string("a\rb"), "\"a\\rb\"");
    assert_eq!(json_string("a\tb"), "\"a\\tb\"");
    assert_eq!(json_string("a\u{0008}b"), "\"a\\bb\"");
    assert_eq!(json_string("a\u{000C}b"), "\"a\\fb\"");
}

#[test]
fn json_string_control_chars_as_hex() {
    assert_eq!(json_string("\u{0001}"), "\"\\u0001\"");
    assert_eq!(json_string("\u{001f}"), "\"\\u001f\"");
    assert_eq!(json_string("x\u{0000}y"), "\"x\\u0000y\"");
}

#[test]
fn json_string_non_ascii_passes_through() {
    assert_eq!(json_string("caf\u{00e9}"), "\"caf\u{00e9}\"");
    assert_eq!(json_string("\u{4e66}"), "\"\u{4e66}\"");
}

#[test]
fn str_eq_agrees_with_equality() {
    assert!(str_eq("alice", "alice"));
    assert!(!str_eq("alice", "alicia"));
    assert!(!str_eq("alice", "alic"));
    assert!(!str_eq("", "a"));
    assert!(str_eq("", ""));
}
