use tunedeck::text::{contains_text, joined};

#[test]
fn contains_text_finds_pieces() {
    assert!(contains_text("abcdef", "cde"));
    assert!(contains_text("abc", ""));
    assert!(contains_text("abc", "abc"));
    assert!(!contains_text("abc", "abcd"));
    assert!(!contains_text("abc", "acb"));
    assert!(contains_text("héllo wörld", "ö"));
}

#[test]
fn joined_appends() {
    assert_eq!(joined("ab", "cd"), "abcd");
    assert_eq!(joined("", "x"), "x");
}
