use holy_maiden_bot::routers::collect::{guess_matches, guess_matches_folded};

#[test]
fn guess_matches_any_word_of_the_name() {
    assert!(guess_matches("aria", "Aria Nightshade"));
    assert!(guess_matches("NIGHTSHADE", "Aria Nightshade"));
    assert!(guess_matches("aria nightshade", "Aria Nightshade"));
}

#[test]
fn guess_of_two_characters_does_not_match() {
    assert!(!guess_matches("ar", "Aria Nightshade"));
    assert!(!guess_matches("al", "Al Capone"));
}

#[test]
fn guess_must_be_a_whole_word() {
    assert!(!guess_matches("arian", "Aria Nightshade"));
    assert!(!guess_matches("night", "Aria Nightshade"));
    assert!(!guess_matches("", "Aria Nightshade"));
}

#[test]
fn folded_match_is_case_sensitive() {
    assert!(guess_matches_folded("aria", "aria nightshade"));
    assert!(!guess_matches_folded("ARIA", "aria nightshade"));
}
