use helix_anywhere::text::str_eq;

#[test]
fn texts_are_equal_when_their_characters_are() {
    assert!(str_eq("", ""));
    assert!(str_eq("a", "a"));
    assert!(str_eq("semicolon", "semicolon"));
    assert!(str_eq("caf\u{E9} \u{1F600}", "caf\u{E9} \u{1F600}"));
    assert!(!str_eq("", "a"));
    assert!(!str_eq("a", ""));
    assert!(!str_eq("a", "b"));
    assert!(!str_eq("a", "A"));
    assert!(!str_eq("ab", "abc"));
    assert!(!str_eq("abc", "abd"));
    assert!(!str_eq("caf\u{E9}", "cafe\u{301}"));
    assert!(!str_eq("\u{E9}", "\u{E8}"));
}
