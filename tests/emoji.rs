use patina::emoji::EmojiExpander;

#[test]
fn test_expand_single() {
    let expander = EmojiExpander::new();
    assert_eq!(expander.expand("rocket"), Some("🚀"));
    assert_eq!(expander.expand("unknown"), None);
}

#[test]
fn test_search() {
    let expander = EmojiExpander::new();
    let results = expander.search("arrow");
    assert!(!results.is_empty());
    assert!(results.iter().any(|(k, _)| *k == "arrow_right"));
}

#[test]
fn test_available() {
    let codes = EmojiExpander::available_shortcodes();
    assert!(!codes.is_empty());
    assert!(codes.contains(&"rocket"));
}
