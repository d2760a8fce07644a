use crates_tui::text::{chars_of, contains_chars, is_blank, is_whitespace_char, truncate_str};

#[test]
fn short_text_is_kept_whole() {
    assert_eq!(truncate_str("hello", 8), "hello");
    assert_eq!(truncate_str("hello", 5), "hello");
}

#[test]
fn long_text_is_cut_with_an_ellipsis() {
    assert_eq!(truncate_str("hello world", 8), "hello...");
    assert_eq!(truncate_str("abcdef", 3), "...");
}

#[test]
fn blank_texts() {
    assert!(is_blank(""));
    assert!(is_blank(" \t\n"));
    assert!(is_blank("\u{a0}\u{3000}"));
    assert!(!is_blank(" x "));
}

#[test]
fn whitespace_matches_std() {
    for c in ['\t', '\n', ' ', '\u{85}', '\u{a0}', '\u{2003}', 'a', '_', '\u{200b}'] {
        assert_eq!(is_whitespace_char(c), c.is_whitespace());
    }
}

#[test]
fn containment_over_characters() {
    let text = chars_of("apache-2.0 or mit");
    assert!(contains_chars(&text, &chars_of("mit")));
    assert!(contains_chars(&text, &chars_of("")));
    assert!(!contains_chars(&text, &chars_of("gpl")));
}
