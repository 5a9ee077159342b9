use cmux::text::truncate_str;

#[test]
fn test_truncate_str_preserves_utf8_boundaries() {
    assert_eq!(truncate_str("abcdef", 4), "abcd");
    assert_eq!(truncate_str("あいう", 4), "あ");
}

#[test]
fn truncate_str_keeps_short_text_whole() {
    assert_eq!(truncate_str("abc", 3), "abc");
    assert_eq!(truncate_str("", 0), "");
    assert_eq!(truncate_str("é", 1), "");
    assert_eq!(truncate_str("aé", 3), "aé");
}
