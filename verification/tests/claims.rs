use holy_maiden_bot::database::models::{Character, Gender, UserCharacters};
use holy_maiden_bot::middlewares::send_character::{GroupSpawnState, SendCharacter};
use holy_maiden_bot::modules::anilist::{Anilist, Entry};
use holy_maiden_bot::modules::i18n::{I18n, Locale};
use holy_maiden_bot::routers::collect::{
    choice_question, escaped_notice, guess_notice, swapped_notice, write_choice_menu,
    write_decision_menu, Guess,
};
use holy_maiden_bot::routers::keyboard::{is_among, Block, Button};

fn english() -> I18n {
    let entries = [
        ("guess_cheated", "{name} does not play with bots"),
        ("wrong_character", "Wrong"),
        ("not_a_character", "That is no character"),
        ("expired_character", "Too late"),
        ("has_character", "You have it"),
        ("character_collected", "{name} is yours"),
        ("max_characters", "Full. Swap? ({timeout}s)"),
        ("select_character", "Which one leaves? ({timeout}s)"),
        ("character_swapped", "{old} left, {new} came"),
        ("character_escaped", "{name} escaped"),
        ("yes_button", "Yes"),
        ("no_button", "No"),
    ];
    let mut i18n = I18n::new("en-GB");
    i18n.add_locale(Locale {
        code: "en-GB".to_string(),
        entries: entries.iter().map(|(k, v)| (k.to_string(), v.to_string())).collect(),
    });
    i18n
}

fn character(id: i64, name: &str) -> Character {
    Character {
        id,
        name: name.to_string(),
        stars: 1,
        image: None,
        gender: Gender::Male,
        artist: String::new(),
        aliases: Vec::new(),
        liked_by: Vec::new(),
        series_id: 0,
        image_link: ".".to_string(),
        anilist_id: None,
    }
}

fn faces(buttons: &Vec<Button>) -> Vec<(String, String)> {
    buttons.iter().map(|b| (b.text.clone(), b.data.clone())).collect()
}

fn pair(text: &str, data: &str) -> (String, String) {
    (text.to_string(), data.to_string())
}

#[test]
fn every_outcome_has_its_notice() {
    let i18n = english();
    assert_eq!(guess_notice(&i18n, Guess::Ignored, "Aria"), None);
    assert_eq!(
        guess_notice(&i18n, Guess::Cheated, "Aria"),
        Some("Aria does not play with bots".to_string())
    );
    assert_eq!(guess_notice(&i18n, Guess::Wrong, "Aria"), Some("Wrong".to_string()));
    assert_eq!(
        guess_notice(&i18n, Guess::NotACharacter, ""),
        Some("That is no character".to_string())
    );
    assert_eq!(guess_notice(&i18n, Guess::Expired, "Aria"), Some("Too late".to_string()));
    assert_eq!(guess_notice(&i18n, Guess::AlreadyOwned, "Aria"), Some("You have it".to_string()));
    assert_eq!(guess_notice(&i18n, Guess::Collected, "Aria"), Some("Aria is yours".to_string()));
    assert_eq!(
        guess_notice(&i18n, Guess::CollectionFull, "Aria"),
        Some("Full. Swap? (5s)".to_string())
    );
    assert_eq!(escaped_notice(&i18n, "Aria"), "Aria escaped");
    assert_eq!(choice_question(&i18n), "Which one leaves? (10s)");
    assert_eq!(swapped_notice(&i18n, "Bo", "Aria"), "Bo left, Aria came");
}

#[test]
fn swap_is_offered_with_buttons() {
    let i18n = english();
    let decision = write_decision_menu(&i18n);
    assert_eq!(decision.len(), 1);
    match &decision[0] {
        Block::Row(buttons) => {
            assert_eq!(faces(buttons), vec![pair("Yes", "yes"), pair("No", "no")])
        }
        Block::Grid { .. } => panic!("a row was expected"),
    }
    let choice = write_choice_menu(&vec![character(7, "Aria"), character(12, "Bo")]);
    match &choice[0] {
        Block::Grid { buttons, width } => {
            assert_eq!(*width, 2);
            assert_eq!(faces(buttons), vec![pair("7. Aria", "7"), pair("12. Bo", "12")]);
        }
        Block::Row(_) => panic!("a grid was expected"),
    }
}

#[test]
fn payloads_are_checked_against_the_accepted_ones() {
    let accepted = vec!["yes".to_string(), "no".to_string()];
    assert!(is_among("yes", &accepted));
    assert!(is_among("no", &accepted));
    assert!(!is_among("maybe", &accepted));
    assert!(!is_among("Yes", &accepted));
    assert!(!is_among("yes", &Vec::new()));
}

#[test]
fn thresholds_are_drawn_from_the_range() {
    let engine = SendCharacter::new(3..5);
    let mut seen = [false, false];
    for _ in 0..400 {
        let drawn = engine.draw_threshold();
        assert!(drawn == 3 || drawn == 4);
        seen[(drawn - 3) as usize] = true;
    }
    assert!(seen[0] && seen[1]);
    let negative = SendCharacter::new(-2..-1);
    assert_eq!(negative.draw_threshold(), -2);
}

#[test]
fn consistency_can_be_tested() {
    let mut state = GroupSpawnState::new(1, 80);
    assert!(state.is_well_formed());
    assert!(state.record_spawn(7, 10));
    assert!(state.is_well_formed());
    state.claim_message_id = None;
    assert!(!state.is_well_formed());
    state.claim_message_id = Some(10);
    state.claimed = true;
    assert!(!state.is_well_formed());
    state.claimed = false;
    state.previous_character_id = Some(8);
    assert!(!state.is_well_formed());
    state.previous_character_id = Some(7);
    state.messages_since_last_spawn = -1;
    assert!(!state.is_well_formed());
    let mut collection = UserCharacters::new(5, 1);
    assert!(collection.is_well_formed());
    collection.characters_id = vec![1, 2, 3];
    assert!(collection.is_well_formed());
    collection.characters_id = vec![1, 2, 1];
    assert!(!collection.is_well_formed());
    collection.characters_id = vec![1, 2, 2];
    assert!(!collection.is_well_formed());
}

#[test]
fn cached_image_is_handed_out() {
    let mut cache = Anilist::new(2);
    cache.keep(Entry { id: 1, image_url: "u".to_string(), image: None });
    assert_eq!(cache.image(1), None);
    assert_eq!(cache.image(2), None);
    cache.keep(Entry { id: 1, image_url: "u".to_string(), image: Some(vec![1, 2, 3]) });
    assert_eq!(cache.image(1), Some(vec![1, 2, 3]));
}
