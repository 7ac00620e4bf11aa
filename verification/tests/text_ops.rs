use dotsong::text::{
    contains_chars, eq_ignore_ascii_case, is_whitespace, join_strings, replace_chars, str_contains,
    strip_suffix_chars, trim_chars, trim_end_matches_chars, trim_start_matches_chars, trim_str,
};

fn chars(s: &str) -> Vec<char> {
    s.chars().collect()
}

fn string_of(v: &[char]) -> String {
    v.iter().collect()
}

#[test]
fn trim_removes_unicode_whitespace_on_both_ends() {
    assert_eq!(trim_str("  \t song \u{3000}\n"), "song");
    assert_eq!(trim_str("   "), "");
    assert_eq!(trim_str("a b"), "a b");
    assert_eq!(string_of(&trim_chars(&chars("\u{a0}x\u{2009}"))), "x");
}

#[test]
fn whitespace_matches_std() {
    for c in ['\t', '\n', ' ', '\u{85}', '\u{a0}', '\u{1680}', '\u{2000}', '\u{200a}', '\u{2028}', '\u{3000}', 'a', '\u{200b}', '\u{feff}'] {
        assert_eq!(is_whitespace(c), c.is_whitespace(), "{:?}", c);
    }
}

#[test]
fn trim_end_matches_removes_every_repetition() {
    let r = trim_end_matches_chars(&chars("x - EP - EP"), &chars(" - EP"));
    assert_eq!(string_of(&r), "x");
    let r = trim_end_matches_chars(&chars("x - EP "), &chars(" - EP"));
    assert_eq!(string_of(&r), "x - EP ");
    let r = trim_start_matches_chars(&chars("file://file:///tmp/a.png"), &chars("file://"));
    assert_eq!(string_of(&r), "/tmp/a.png");
}

#[test]
fn strip_suffix_removes_one_occurrence() {
    let r = strip_suffix_chars(&chars("a - Topic - Topic"), &chars(" - Topic")).unwrap();
    assert_eq!(string_of(&r), "a - Topic");
    assert!(strip_suffix_chars(&chars("a"), &chars(" - Topic")).is_none());
}

#[test]
fn replace_is_left_to_right_and_non_overlapping() {
    let r = replace_chars(&chars("aaa"), &chars("aa"), &chars("b"));
    assert_eq!(string_of(&r), "ba");
    assert_eq!("aaa".replace("aa", "b"), "ba");
    let r = replace_chars(&chars("x \u{2014} y \u{2014} z"), &chars(" \u{2014} "), &chars(" "));
    assert_eq!(string_of(&r), "x y z");
}

#[test]
fn join_puts_separator_between_parts() {
    let parts = vec!["a".to_string(), "b".to_string(), "c".to_string()];
    assert_eq!(join_strings(&parts, ", "), "a, b, c");
    assert_eq!(join_strings(&Vec::new(), ", "), "");
    assert_eq!(join_strings(&vec!["solo".to_string()], ", "), "solo");
}

#[test]
fn contains_and_case_helpers() {
    assert!(contains_chars(&chars("hello world"), &chars("o w")));
    assert!(!contains_chars(&chars("hello"), &chars("hello!")));
    assert!(contains_chars(&chars("x"), &chars("")));
    assert!(str_contains("applemusic", "music"));
    assert!(eq_ignore_ascii_case("ChRoMe", "chrome"));
    assert!(!eq_ignore_ascii_case("chrome", "chromium"));
    assert!(!eq_ignore_ascii_case("\u{c9}", "\u{e9}"));
}
