use std::hash::{Hash, Hasher};

use helix_anywhere::diff::{
    compare_texts, hash_content, outcome_for_digests, strip_trailing_newline, Outcome,
};

const SAMPLES: [&str; 12] = [
    "",
    "\n",
    "a",
    "a\n",
    "A",
    "hello world",
    "hello  world",
    "hello world ",
    "line one\nline two",
    "line one\nline two\n",
    "caf\u{E9}",
    "cafe\u{301}",
];

#[test]
fn the_digest_of_a_text_is_always_the_same() {
    for text in SAMPLES {
        assert_eq!(hash_content(text), hash_content(text));
        let copy = text.to_string();
        assert_eq!(hash_content(text), hash_content(&copy));
    }
    let long = "x".repeat(100_000);
    assert_eq!(hash_content(&long), hash_content(&long.clone()));
}

#[test]
fn different_sample_texts_have_different_digests() {
    for (i, first) in SAMPLES.iter().enumerate() {
        for second in &SAMPLES[i + 1..] {
            assert_ne!(hash_content(first), hash_content(second), "{:?} {:?}", first, second);
        }
    }
}

#[test]
fn the_digest_is_that_of_the_default_hasher_for_a_text() {
    for text in SAMPLES {
        let mut hasher = std::collections::hash_map::DefaultHasher::new();
        text.hash(&mut hasher);
        assert_eq!(hash_content(text), hasher.finish());
    }
}

#[test]
fn one_newline_at_the_end_is_stripped() {
    assert_eq!(strip_trailing_newline("hello\n"), "hello");
    assert_eq!(strip_trailing_newline("hello"), "hello");
    assert_eq!(strip_trailing_newline("\n"), "");
    assert_eq!(strip_trailing_newline(""), "");
    assert_eq!(strip_trailing_newline("caf\u{E9}\n"), "caf\u{E9}");
}

#[test]
fn newlines_that_are_not_at_the_end_stay() {
    assert_eq!(strip_trailing_newline("a\nb"), "a\nb");
    assert_eq!(strip_trailing_newline("a\nb\n"), "a\nb");
    assert_eq!(strip_trailing_newline("\na"), "\na");
    assert_eq!(strip_trailing_newline("\n\na\n\nb"), "\n\na\n\nb");
    assert_eq!(strip_trailing_newline("a\n "), "a\n ");
    assert_eq!(strip_trailing_newline("a\r\n"), "a\r");
}

#[test]
fn only_one_of_two_newlines_at_the_end_is_stripped() {
    assert_eq!(strip_trailing_newline("a\n\n"), "a\n");
    assert_eq!(strip_trailing_newline("\n\n"), "\n");
    assert_eq!(strip_trailing_newline("a\n\n\n"), "a\n\n");
}

#[test]
fn stripping_twice_is_stripping_once_unless_two_newlines_end_the_text() {
    for text in SAMPLES {
        let once = strip_trailing_newline(text);
        assert_eq!(strip_trailing_newline(once), once, "{:?}", text);
    }
    for text in ["x", "x\n", "\nx\n", "a\n\nb\n", "\n"] {
        let once = strip_trailing_newline(text);
        assert_eq!(strip_trailing_newline(once), once, "{:?}", text);
    }
    let once = strip_trailing_newline("x\n\n");
    assert_eq!(once, "x\n");
    assert_eq!(strip_trailing_newline(once), "x");
}

#[test]
fn equal_digests_mean_unchanged_and_different_ones_applied() {
    assert_eq!(outcome_for_digests(0, 0), Outcome::Unchanged);
    assert_eq!(outcome_for_digests(u64::MAX, u64::MAX), Outcome::Unchanged);
    assert_eq!(outcome_for_digests(1, 2), Outcome::Applied);
    assert_eq!(outcome_for_digests(0, u64::MAX), Outcome::Applied);
}

#[test]
fn a_text_saved_as_it_was_is_unchanged() {
    assert_eq!(compare_texts("hello", "hello"), Outcome::Unchanged);
    assert_eq!(compare_texts("hello", "hello\n"), Outcome::Unchanged);
    assert_eq!(compare_texts("a\nb", "a\nb\n"), Outcome::Unchanged);
    assert_eq!(compare_texts("a\n", "a\n\n"), Outcome::Unchanged);
}

#[test]
fn an_edited_text_is_applied() {
    assert_eq!(compare_texts("hello", "hello!"), Outcome::Applied);
    assert_eq!(compare_texts("hello", "hello!\n"), Outcome::Applied);
    assert_eq!(compare_texts("hello", ""), Outcome::Applied);
    assert_eq!(compare_texts("hello", "Hello\n"), Outcome::Applied);
    assert_eq!(compare_texts("hello", "hello\n\n"), Outcome::Applied);
    assert_eq!(compare_texts("hello\n", "hello\n"), Outcome::Applied);
    assert_eq!(compare_texts("a\nb", "ab\n"), Outcome::Applied);
}
