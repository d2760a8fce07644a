use crates_tui::similarity::{
    levenshtein_distance, name_similarity_warning, resemblance_of, Resemblance,
};

#[test]
fn edit_distance_of_equal_names_is_zero() {
    assert_eq!(levenshtein_distance("serde", "serde"), 0);
}

#[test]
fn edit_distance_of_one_insertion() {
    assert_eq!(levenshtein_distance("serde", "serdee"), 1);
}

#[test]
fn edit_distance_from_empty() {
    assert_eq!(levenshtein_distance("", "abc"), 3);
    assert_eq!(levenshtein_distance("abc", ""), 3);
    assert_eq!(levenshtein_distance("", ""), 0);
}

#[test]
fn edit_distance_classic_examples() {
    assert_eq!(levenshtein_distance("kitten", "sitting"), 3);
    assert_eq!(levenshtein_distance("flaw", "lawn"), 2);
    assert_eq!(levenshtein_distance("toko", "tokio"), 1);
}

#[test]
fn edit_distance_counts_characters_not_bytes() {
    assert_eq!(levenshtein_distance("caf\u{e9}", "cafe"), 1);
    assert_eq!(levenshtein_distance("\u{e9}\u{e9}", "\u{e9}"), 1);
}

#[test]
fn edit_distance_is_symmetric_on_samples() {
    let pairs = [
        ("serde", "serdee"),
        ("tokio", "toko"),
        ("", "abc"),
        ("rand-rs", "rand"),
        ("kitten", "sitting"),
        ("regex", "rayon"),
    ];
    for (a, b) in pairs {
        assert_eq!(levenshtein_distance(a, b), levenshtein_distance(b, a));
    }
}

#[test]
fn toko_is_flagged_as_close_to_tokio() {
    assert_eq!(resemblance_of("toko", "tokio"), Some(Resemblance::Close));
    assert_eq!(
        name_similarity_warning("toko"),
        Some("Name similar to popular package 'tokio'".to_string())
    );
}

#[test]
fn popular_name_itself_is_not_flagged() {
    assert_eq!(resemblance_of("tokio", "tokio"), None);
    assert_eq!(name_similarity_warning("tokio"), None);
    assert_eq!(name_similarity_warning("serde"), None);
}

#[test]
fn affix_within_three_characters_is_suspicious() {
    assert_eq!(resemblance_of("serde-rs", "serde"), Some(Resemblance::Affix));
    assert_eq!(resemblance_of("my-serde", "serde"), Some(Resemblance::Affix));
    assert_eq!(
        name_similarity_warning("rand-rs"),
        Some("Name suspiciously similar to 'rand'".to_string())
    );
}

#[test]
fn affix_four_characters_longer_is_not_flagged() {
    assert_eq!(resemblance_of("serde_json", "serde"), None);
    assert_eq!(name_similarity_warning("serde_json"), None);
}

#[test]
fn first_matching_popular_name_decides() {
    // "rand" comes before "log" in the list of popular names.
    assert_eq!(
        name_similarity_warning("rang"),
        Some("Name similar to popular package 'rand'".to_string())
    );
}

#[test]
fn unrelated_name_is_not_flagged() {
    assert_eq!(name_similarity_warning("ratatui"), None);
}

#[test]
fn edit_distance_obeys_triangle_inequality_on_samples() {
    let words = ["", "serde", "serdee", "sered", "tokio", "toko", "rand-rs", "rand"];
    for a in words {
        for b in words {
            for c in words {
                assert!(
                    levenshtein_distance(a, c)
                        <= levenshtein_distance(a, b) + levenshtein_distance(b, c)
                );
            }
        }
    }
}
