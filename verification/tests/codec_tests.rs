use musicalus::netease_music::codec::{
    decimal_string, join_strings, json_array_text, json_object_text, json_quote, pad_left,
};

#[test]
fn decimal_of_zero_and_large_numbers() {
    assert_eq!(decimal_string(0), "0");
    assert_eq!(decimal_string(7), "7");
    assert_eq!(decimal_string(10), "10");
    assert_eq!(decimal_string(1234567890), "1234567890");
    assert_eq!(decimal_string(u64::MAX), "18446744073709551615");
}

#[test]
fn join_puts_separator_between_items() {
    let items = vec!["a".to_string(), "bc".to_string(), "".to_string(), "d".to_string()];
    assert_eq!(join_strings(&items, ", "), "a, bc, , d");
    assert_eq!(join_strings(&vec![], ","), "");
    assert_eq!(join_strings(&vec!["x".to_string()], ","), "x");
}

#[test]
fn json_quote_escapes_like_serde_json() {
    assert_eq!(json_quote("plain"), "\"plain\"");
    assert_eq!(json_quote(""), "\"\"");
    assert_eq!(json_quote("a\"b\\c"), "\"a\\\"b\\\\c\"");
    assert_eq!(json_quote("\n\t\r\u{8}\u{c}"), "\"\\n\\t\\r\\b\\f\"");
    assert_eq!(json_quote("\u{1}\u{1f}"), "\"\\u0001\\u001f\"");
    assert_eq!(json_quote("é/\u{7f}"), "\"é/\u{7f}\"");
}

#[test]
fn json_array_and_object_are_compact() {
    let items = vec!["1".to_string(), "{\"a\":2}".to_string()];
    assert_eq!(json_array_text(&items), "[1,{\"a\":2}]");
    assert_eq!(json_array_text(&vec![]), "[]");
    let members = vec![
        ("k\"ey".to_string(), "\"v\"".to_string()),
        ("n".to_string(), "3".to_string()),
    ];
    assert_eq!(json_object_text(&members), "{\"k\\\"ey\":\"v\",\"n\":3}");
    assert_eq!(json_object_text(&vec![]), "{}");
}

#[test]
fn pad_left_fills_with_zero_bytes() {
    assert_eq!(pad_left(&[1, 2], 5), vec![0, 0, 0, 1, 2]);
    assert_eq!(pad_left(&[1, 2], 2), vec![1, 2]);
    assert_eq!(pad_left(&[], 3), vec![0, 0, 0]);
}
