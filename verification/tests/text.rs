use traffic_audit::text::{chars_of, contains, contains_chars, starts_with};

#[test]
fn chars_of_keeps_every_character() {
    assert_eq!(chars_of("a\u{e9}\u{1f600}z"), vec!['a', '\u{e9}', '\u{1f600}', 'z']);
    assert_eq!(chars_of(""), Vec::<char>::new());
}

#[test]
fn starts_with_exact_prefix() {
    assert!(starts_with("http://example.com", "http://"));
    assert!(!starts_with("https://example.com", "http://"));
    assert!(!starts_with("Http://example.com", "http://"));
    assert!(!starts_with("http:/", "http://"));
    assert!(starts_with("http://", "http://"));
    assert!(starts_with("anything", ""));
    assert!(starts_with("", ""));
    assert!(!starts_with("", "x"));
}

#[test]
fn contains_finds_a_needle_anywhere() {
    assert!(contains("ads.doubleclick.net", "doubleclick"));
    assert!(contains("doubleclick", "doubleclick"));
    assert!(contains("xxdoubleclick", "doubleclick"));
    assert!(contains("aab", "ab"));
    assert!(contains("abc", ""));
    assert!(contains("", ""));
    assert!(!contains("", "a"));
    assert!(!contains("ab", "abc"));
    assert!(!contains("double-click", "doubleclick"));
    assert!(!contains("ABC", "abc"));
}

#[test]
fn contains_counts_characters_not_bytes() {
    assert!(contains("gr\u{fc}\u{df}e", "\u{df}e"));
    assert!(!contains("gr\u{fc}\u{df}e", "ue"));
}

#[test]
fn contains_chars_agrees_with_contains() {
    let text: Vec<char> = "measurement".chars().collect();
    let needle: Vec<char> = "measure".chars().collect();
    let other: Vec<char> = "beacon".chars().collect();
    assert!(contains_chars(&text, &needle));
    assert!(!contains_chars(&text, &other));
    assert!(!contains_chars(&needle, &text));
}
