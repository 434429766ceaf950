use collator_monitor::text::{
    decimal_text, has_prefix, holds_char, holds_text, join, padded_text, same_text,
    significant_text_len, trim,
};

#[test]
fn numerals() {
    assert_eq!(decimal_text(0), "0");
    assert_eq!(decimal_text(u128::MAX), u128::MAX.to_string());
    assert_eq!(padded_text(42, 5), "00042");
    assert_eq!(padded_text(123456, 3), "123456");
    assert_eq!(significant_text_len("01200"), 3);
    assert_eq!(significant_text_len("000"), 0);
}

#[test]
fn trimming_is_that_of_the_standard_library() {
    for s in ["", " a ", "\u{a0}b\u{3000}", "\n\t c d\r\n", "\u{85}e\u{2029}", "\u{200b}f"] {
        assert_eq!(trim(s), s.trim());
    }
}

#[test]
fn searching() {
    assert!(same_text("äb", "äb"));
    assert!(!same_text("äb", "äc"));
    assert!(!same_text("a", "ab"));
    assert!(holds_char("a b", ' '));
    assert!(!holds_char("ab", ' '));
    assert!(has_prefix("0x12", "0x"));
    assert!(!has_prefix("0", "0x"));
    assert!(holds_text("winner", "inner"));
    assert!(holds_text("x", ""));
    assert!(!holds_text("inn", "inner"));
}

#[test]
fn joining() {
    let parts = vec!["a".to_string(), "b".to_string(), "c".to_string()];
    assert_eq!(join(&parts, ", "), "a, b, c");
    assert_eq!(join(&vec![], ", "), "");
}
