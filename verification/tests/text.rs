//! Text, targets and answers of remote hosts.
use herdr::remote_helpers::{rewrite_remote_response_id, remote_response_error_code};
use herdr::text::{
    concat2, concat5, contains, decimal_text, decimal_text_wide, index_of_char, join, same_text,
    strip_prefix, trim,
};

#[test]
fn numbers_are_written_in_decimal() {
    assert_eq!(decimal_text(0), "0");
    assert_eq!(decimal_text(9), "9");
    assert_eq!(decimal_text(10), "10");
    assert_eq!(decimal_text(4096), "4096");
    assert_eq!(decimal_text_wide(u64::MAX), u64::MAX.to_string());
}

#[test]
fn white_space_is_trimmed_at_both_ends() {
    assert_eq!(trim("  a b \t\n"), "a b");
    assert_eq!(trim("\u{2003}x\u{a0}"), "x");
    assert_eq!(trim(" \t "), "");
    assert_eq!(trim(""), "");
    assert_eq!(trim("unchanged"), "unchanged");
}

#[test]
fn white_space_is_what_unicode_says() {
    for code in 0..=0x10ffff_u32 {
        let Some(c) = char::from_u32(code) else { continue };
        assert_eq!(trim(&c.to_string()).is_empty(), c.is_whitespace(), "U+{code:04X}");
    }
}

#[test]
fn parts_are_found_and_cut() {
    assert!(contains("already has a controller", "has a"));
    assert!(contains("abc", ""));
    assert!(!contains("", "a"));
    assert!(!contains("abc", "abd"));
    assert!(contains("aab", "ab"));
    assert_eq!(index_of_char("jafar/tab:x", '/'), Some(5));
    assert_eq!(index_of_char("jafar", '/'), None);
    assert_eq!(strip_prefix("tab:x", "tab:").as_deref(), Some("x"));
    assert_eq!(strip_prefix("ta", "tab:"), None);
    assert_eq!(join(&vec!["a".to_string(), "b".to_string()], ", "), "a, b");
    assert_eq!(join(&Vec::new(), ", "), "");
    assert_eq!(concat2("a", "b"), "ab");
    assert_eq!(concat5("a", "b", "", "c", "d"), "abcd");
    assert!(same_text("\u{e9}", "\u{e9}"));
    assert!(!same_text("a", "b"));
}

#[test]
fn answers_get_the_clients_id_and_keep_the_rest() {
    let text = rewrite_remote_response_id(
        r#"{"id":"theirs","result":{"type":"ok","n":[1,2]}}"#,
        "ours",
    )
    .expect("an object");
    let value: serde_json::Value = serde_json::from_str(&text).unwrap();
    assert_eq!(value["id"], "ours");
    assert_eq!(value["result"]["n"][1], 2);
    assert!(rewrite_remote_response_id("[]", "ours").is_err());
    assert!(rewrite_remote_response_id("{", "ours").is_err());
}

#[test]
fn only_text_codes_count() {
    assert_eq!(remote_response_error_code(r#"{"error":{"code":7}}"#), None);
    assert_eq!(remote_response_error_code(r#"[1]"#), None);
    assert_eq!(
        remote_response_error_code(r#"{"error":{"code":"x"}}"#).as_deref(),
        Some("x")
    );
}
