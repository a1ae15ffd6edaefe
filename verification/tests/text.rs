use neen_desktop_agent::text::{chars_of, contains_str, lowercase_of, same_text};

#[test]
fn substring_search() {
    assert!(contains_str("hello world", "lo w"));
    assert!(contains_str("abc", ""));
    assert!(contains_str("abc", "abc"));
    assert!(!contains_str("abc", "abcd"));
    assert!(!contains_str("abc", "ac"));
    assert!(contains_str("naïve café", "é"));
}

#[test]
fn lowercase_and_equality() {
    assert_eq!(lowercase_of("HeLLo ÄÖ"), "hello äö");
    assert!(same_text("a", "a"));
    assert!(!same_text("a", "A"));
    assert_eq!(chars_of("añb"), vec!['a', 'ñ', 'b']);
}
