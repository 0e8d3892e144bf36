use holy_maiden_bot::database::models::{Added, GroupCharacter, UserCharacters, MAX_CHARACTERS};
use holy_maiden_bot::middlewares::send_character::{
    GroupSpawnState, SendCharacter, SpawnAction, ESCAPE_AGE,
};
use holy_maiden_bot::routers::collect::{
    decision, guess, judge, settle, swap, swap_payloads, Decision, Guess, Swap,
    SWAP_CHOICE_TIMEOUT, SWAP_DECISION_TIMEOUT,
};

fn spawned(chat_id: i64, character_id: i64, message_id: i32) -> GroupSpawnState {
    let mut state = GroupSpawnState::new(chat_id, 100);
    assert!(state.record_spawn(character_id, message_id));
    state
}

fn full_collection() -> UserCharacters {
    let mut collection = UserCharacters::new(5, 1);
    for id in 1..=9 {
        assert_eq!(collection.add(id, MAX_CHARACTERS), Added::Added);
    }
    collection
}

#[test]
fn new_state_is_idle() {
    let state = GroupSpawnState::new(1, 80);
    assert_eq!(state.current_character_id, None);
    assert_eq!(state.claim_message_id, None);
    assert!(!state.claimed);
    assert_eq!(state.messages_since_last_spawn, 0);
    assert_eq!(state.messages_needed_for_next_spawn, 80);
}

#[test]
fn character_is_set_exactly_while_a_claim_is_open() {
    let mut state = GroupSpawnState::new(1, 2);
    assert!(state.current_character_id.is_none());
    assert_eq!(state.tick(1, ESCAPE_AGE, 5), SpawnAction::Nothing);
    assert!(state.current_character_id.is_none());
    assert_eq!(state.tick(2, ESCAPE_AGE, 5), SpawnAction::PickCharacter);
    assert!(state.current_character_id.is_none());
    assert!(state.record_spawn(7, 3));
    assert_eq!(state.current_character_id, Some(7));
    assert_eq!(state.claim_message_id, Some(3));
    assert!(!state.claimed);
    assert!(state.close_claim(true, 9));
    assert_eq!(state.current_character_id, None);
    assert_eq!(state.claim_message_id, None);
    assert!(state.claimed);
}

#[test]
fn exactly_one_spawn_when_the_counter_reaches_the_threshold() {
    let mut state = GroupSpawnState::new(1, 5);
    let mut picks = 0;
    for message_id in 1..=5 {
        if state.tick(message_id, ESCAPE_AGE, 80) == SpawnAction::PickCharacter {
            picks += 1;
            assert_eq!(message_id, 5);
        }
    }
    assert_eq!(picks, 1);
    assert_eq!(state.messages_since_last_spawn, 0);
    assert_eq!(state.messages_needed_for_next_spawn, 80);
}

#[test]
fn messages_below_the_threshold_are_only_counted() {
    let mut state = GroupSpawnState::new(1, 5);
    for message_id in 1..=4 {
        assert!(!state.is_due(message_id) || message_id == 5);
        assert_eq!(state.tick(message_id, ESCAPE_AGE, 80), SpawnAction::Nothing);
    }
    assert_eq!(state.messages_since_last_spawn, 4);
    assert!(state.is_due(5));
}

#[test]
fn counter_stops_at_the_largest_number() {
    let mut state = spawned(1, 7, 10);
    state.messages_since_last_spawn = i64::MAX;
    assert_eq!(state.tick(11, ESCAPE_AGE, 80), SpawnAction::Nothing);
    assert_eq!(state.messages_since_last_spawn, i64::MAX);
}

#[test]
fn no_spawn_while_a_claim_is_open() {
    let mut state = spawned(1, 7, 10);
    state.messages_needed_for_next_spawn = 2;
    for message_id in 11..=20 {
        assert_eq!(state.tick(message_id, ESCAPE_AGE, 3), SpawnAction::Nothing);
    }
    assert_eq!(state.current_character_id, Some(7));
    assert_eq!(state.messages_since_last_spawn, 10);
    assert!(!state.record_spawn(8, 21));
    assert_eq!(state.current_character_id, Some(7));
}

#[test]
fn escape_age_can_be_configured() {
    let mut state = spawned(1, 7, 100);
    assert_eq!(state.tick(102, 3, 80), SpawnAction::Nothing);
    assert_eq!(
        state.tick(103, 3, 80),
        SpawnAction::Escaped { character_id: 7, claim_message_id: 100 }
    );
    let mut engine = SendCharacter::with_escape_age(50..51, 2);
    assert_eq!(engine.on_message(1, 9), SpawnAction::Nothing);
    assert!(engine.record_spawn(1, 7, 10));
    assert_eq!(engine.on_message(1, 11), SpawnAction::Nothing);
    assert_eq!(
        engine.on_message(1, 12),
        SpawnAction::Escaped { character_id: 7, claim_message_id: 10 }
    );
}

#[test]
fn capacity_can_be_configured() {
    let mut collection = UserCharacters::new(5, 1);
    assert_eq!(collection.add(1, 2), Added::Added);
    assert_eq!(collection.add(2, 2), Added::Added);
    assert_eq!(collection.add(3, 2), Added::Full);
    assert_eq!(collection.add(3, 3), Added::Added);
    assert_eq!(collection.add(4, 0), Added::Full);
    let mut state = spawned(1, 70, 10);
    assert_eq!(judge(&mut state, &mut collection, Some(10), true, false, true, 3, 80), Guess::CollectionFull);
    assert_eq!(judge(&mut state, &mut collection, Some(10), true, false, true, 4, 80), Guess::Collected);
}

#[test]
fn claim_escapes_once_at_the_expiry_age() {
    assert_eq!(ESCAPE_AGE, 35);
    let mut state = spawned(1, 7, 100);
    assert_eq!(state.tick(134, ESCAPE_AGE, 80), SpawnAction::Nothing);
    assert_eq!(
        state.tick(135, ESCAPE_AGE, 80),
        SpawnAction::Escaped { character_id: 7, claim_message_id: 100 }
    );
    assert_eq!(state.current_character_id, None);
    assert_eq!(state.claim_message_id, None);
    assert!(!state.claimed);
    assert_eq!(state.messages_since_last_spawn, 0);
    assert_eq!(state.tick(136, ESCAPE_AGE, 80), SpawnAction::Nothing);
}

#[test]
fn escape_does_not_spawn_on_the_same_message() {
    let mut state = spawned(1, 7, 100);
    state.messages_needed_for_next_spawn = 1;
    let action = state.tick(200, ESCAPE_AGE, 80);
    assert_eq!(action, SpawnAction::Escaped { character_id: 7, claim_message_id: 100 });
    assert_eq!(state.messages_needed_for_next_spawn, 1);
    assert_eq!(state.tick(201, ESCAPE_AGE, 80), SpawnAction::PickCharacter);
}

#[test]
fn escape_age_is_counted_without_overflow() {
    let mut state = spawned(1, 7, i32::MIN);
    assert_eq!(
        state.tick(i32::MAX, ESCAPE_AGE, 80),
        SpawnAction::Escaped { character_id: 7, claim_message_id: i32::MIN }
    );
}

#[test]
fn repeat_of_the_previous_character_is_skipped() {
    let mut state = spawned(1, 7, 10);
    assert!(state.close_claim(true, 80));
    assert_eq!(state.select(Some(7)), None);
    assert_eq!(state.select(Some(8)), Some(8));
    assert_eq!(state.select(None), None);
    let fresh = GroupSpawnState::new(1, 80);
    assert_eq!(fresh.select(Some(7)), Some(7));
}

#[test]
fn nothing_is_selected_while_a_claim_is_open() {
    let state = spawned(1, 7, 10);
    assert_eq!(state.select(Some(8)), None);
}

#[test]
fn closing_an_idle_group_changes_nothing() {
    let mut state = GroupSpawnState::new(1, 80);
    let before = state;
    assert!(!state.close_claim(true, 5));
    assert_eq!(state, before);
}

#[test]
fn unclaimed_close_keeps_the_threshold() {
    let mut state = spawned(1, 7, 10);
    assert!(state.close_claim(false, 5));
    assert_eq!(state.messages_needed_for_next_spawn, 100);
    assert!(!state.claimed);
}

#[test]
fn state_round_trips_through_the_stored_record() {
    let state = spawned(4, 7, 10);
    let record = state.claim_record();
    assert_eq!(
        record,
        Some(GroupCharacter { group_id: 4, character_id: 7, last_message_id: 10, available: true })
    );
    let restored = GroupSpawnState::from_record(4, 100, record);
    assert_eq!(restored, state);
    let claimed = GroupSpawnState::from_record(
        4,
        100,
        Some(GroupCharacter { group_id: 4, character_id: 7, last_message_id: 10, available: false }),
    );
    assert_eq!(claimed.current_character_id, None);
    assert_eq!(claimed.previous_character_id, Some(7));
    assert!(claimed.claimed);
    assert_eq!(GroupSpawnState::new(4, 100).claim_record(), None);
}

#[test]
fn guess_that_is_not_a_reply_is_ignored() {
    let mut state = spawned(1, 7, 10);
    let mut collection = UserCharacters::new(5, 1);
    let before = state;
    assert_eq!(
        guess(&mut state, &mut collection, None, false, "aria", Some("Aria Nightshade"), MAX_CHARACTERS, 80),
        Guess::Ignored
    );
    assert_eq!(
        guess(&mut state, &mut collection, Some(9), false, "aria", Some("Aria Nightshade"), MAX_CHARACTERS, 80),
        Guess::Ignored
    );
    assert_eq!(state, before);
    assert!(collection.characters_id.is_empty());
}

#[test]
fn guess_without_an_open_claim_is_ignored() {
    let mut state = GroupSpawnState::new(1, 80);
    let mut collection = UserCharacters::new(5, 1);
    assert_eq!(
        guess(&mut state, &mut collection, Some(10), false, "aria", Some("Aria Nightshade"), MAX_CHARACTERS, 80),
        Guess::Ignored
    );
    assert!(collection.characters_id.is_empty());
}

#[test]
fn wrong_guess_keeps_the_claim_open() {
    let mut state = spawned(1, 7, 10);
    let mut collection = UserCharacters::new(5, 1);
    assert_eq!(
        guess(&mut state, &mut collection, Some(10), false, "zelda", Some("Aria Nightshade"), MAX_CHARACTERS, 80),
        Guess::Wrong
    );
    assert_eq!(state.current_character_id, Some(7));
    assert!(collection.characters_id.is_empty());
}

#[test]
fn bot_guess_clears_the_claim() {
    let mut state = spawned(1, 7, 10);
    let mut collection = UserCharacters::new(5, 1);
    assert_eq!(
        guess(&mut state, &mut collection, Some(10), true, "aria", Some("Aria Nightshade"), MAX_CHARACTERS, 80),
        Guess::Cheated
    );
    assert_eq!(state.current_character_id, None);
    assert!(!state.claimed);
    assert_eq!(state.messages_needed_for_next_spawn, 100);
    assert!(collection.characters_id.is_empty());
}

#[test]
fn wrong_guess_of_a_bot_is_a_wrong_guess() {
    let mut state = spawned(1, 7, 10);
    let mut collection = UserCharacters::new(5, 1);
    assert_eq!(
        judge(&mut state, &mut collection, Some(10), true, true, false, MAX_CHARACTERS, 80),
        Guess::Wrong
    );
    assert_eq!(state.current_character_id, Some(7));
    assert_eq!(
        guess(
            &mut state,
            &mut collection,
            Some(10),
            true,
            "zelda",
            Some("Aria Nightshade"),
            MAX_CHARACTERS,
            80
        ),
        Guess::Wrong
    );
    assert_eq!(state.current_character_id, Some(7));
    assert!(collection.characters_id.is_empty());
}

#[test]
fn reply_to_a_claimed_character_is_told_that_it_is_gone() {
    let mut state = spawned(1, 7, 10);
    let mut winner = UserCharacters::new(5, 1);
    assert_eq!(
        guess(&mut state, &mut winner, Some(10), false, "aria", Some("Aria"), MAX_CHARACTERS, 80),
        Guess::Collected
    );
    assert_eq!(state.shown(), Some((10, 7)));
    let closed = state;
    let mut late = UserCharacters::new(6, 1);
    assert_eq!(
        guess(&mut state, &mut late, Some(10), false, "aria", Some("Aria"), MAX_CHARACTERS, 81),
        Guess::Expired
    );
    assert_eq!(
        guess(&mut state, &mut late, Some(10), true, "zelda", Some("Aria"), MAX_CHARACTERS, 81),
        Guess::Expired
    );
    assert_eq!(
        guess(&mut state, &mut late, Some(9), false, "aria", Some("Aria"), MAX_CHARACTERS, 81),
        Guess::Ignored
    );
    assert_eq!(state, closed);
    assert!(late.characters_id.is_empty());
    assert_eq!(winner.characters_id, vec![7]);
}

#[test]
fn reply_to_an_escaped_or_cheated_character_is_ignored() {
    let mut escaped = spawned(1, 7, 10);
    assert_eq!(
        escaped.tick(45, ESCAPE_AGE, 80),
        SpawnAction::Escaped { character_id: 7, claim_message_id: 10 }
    );
    assert_eq!(escaped.shown(), None);
    let mut collection = UserCharacters::new(5, 1);
    assert_eq!(
        guess(&mut escaped, &mut collection, Some(10), false, "aria", Some("Aria"), 9, 80),
        Guess::Ignored
    );
    let mut cheated = spawned(1, 7, 10);
    assert_eq!(
        guess(&mut cheated, &mut collection, Some(10), true, "aria", Some("Aria"), 9, 80),
        Guess::Cheated
    );
    assert_eq!(cheated.shown(), None);
    assert_eq!(
        guess(&mut cheated, &mut collection, Some(10), false, "aria", Some("Aria"), 9, 80),
        Guess::Ignored
    );
}

#[test]
fn character_without_a_record_is_no_character() {
    let mut state = spawned(1, 7, 10);
    let before = state;
    let mut collection = UserCharacters::new(5, 1);
    assert_eq!(
        guess(&mut state, &mut collection, Some(10), false, "aria", None, MAX_CHARACTERS, 80),
        Guess::NotACharacter
    );
    assert_eq!(
        judge(&mut state, &mut collection, Some(10), false, true, true, MAX_CHARACTERS, 80),
        Guess::NotACharacter
    );
    assert_eq!(
        guess(&mut state, &mut collection, Some(11), false, "aria", None, MAX_CHARACTERS, 80),
        Guess::Ignored
    );
    assert_eq!(state, before);
    assert!(state.close_claim(true, 80));
    assert_eq!(
        guess(&mut state, &mut collection, Some(10), false, "aria", None, MAX_CHARACTERS, 80),
        Guess::NotACharacter
    );
    assert!(collection.characters_id.is_empty());
}

#[test]
fn right_guess_is_collected_once() {
    let mut state = spawned(1, 7, 10);
    let mut collection = UserCharacters::new(5, 1);
    assert_eq!(
        guess(&mut state, &mut collection, Some(10), false, "NIGHTSHADE", Some("Aria Nightshade"), MAX_CHARACTERS, 42),
        Guess::Collected
    );
    assert_eq!(state.current_character_id, None);
    assert_eq!(state.claim_message_id, None);
    assert!(state.claimed);
    assert_eq!(state.messages_needed_for_next_spawn, 42);
    assert_eq!(collection.characters_id, vec![7]);
    assert_eq!(
        guess(&mut state, &mut collection, Some(10), false, "NIGHTSHADE", Some("Aria Nightshade"), MAX_CHARACTERS, 43),
        Guess::Expired
    );
    assert_eq!(collection.characters_id, vec![7]);
    assert_eq!(state.messages_needed_for_next_spawn, 42);
}

#[test]
fn owner_cannot_collect_again() {
    let mut state = spawned(1, 7, 10);
    let mut collection = UserCharacters::new(5, 1);
    assert_eq!(collection.add(7, MAX_CHARACTERS), Added::Added);
    assert_eq!(judge(&mut state, &mut collection, Some(10), true, false, true, MAX_CHARACTERS, 80), Guess::AlreadyOwned);
    assert_eq!(state.current_character_id, Some(7));
    assert_eq!(collection.characters_id, vec![7]);
}

#[test]
fn full_collection_opens_the_swap_question() {
    assert_eq!(MAX_CHARACTERS, 9);
    let mut state = spawned(1, 70, 10);
    let mut collection = full_collection();
    assert_eq!(
        judge(&mut state, &mut collection, Some(10), true, false, true, MAX_CHARACTERS, 80),
        Guess::CollectionFull
    );
    assert_eq!(state.current_character_id, Some(70));
    assert_eq!(collection.characters_id.len(), 9);
    assert_eq!(collection.add(70, MAX_CHARACTERS), Added::Full);
}

#[test]
fn swap_question_is_read_from_the_button() {
    assert_eq!(SWAP_DECISION_TIMEOUT, 5);
    assert_eq!(SWAP_CHOICE_TIMEOUT, 10);
    assert_eq!(decision(Some("yes")), Decision::Swap);
    assert_eq!(decision(Some("no")), Decision::Keep);
    assert_eq!(decision(Some("maybe")), Decision::Unknown);
    assert_eq!(decision(None), Decision::TimedOut);
}

#[test]
fn swap_replaces_the_chosen_character() {
    let mut collection = full_collection();
    assert_eq!(
        swap_payloads(&collection),
        vec!["1", "2", "3", "4", "5", "6", "7", "8", "9"]
    );
    assert_eq!(swap(&mut collection, 70, Some("4")), Swap::Swapped { old_id: 4 });
    assert_eq!(collection.characters_id, vec![1, 2, 3, 70, 5, 6, 7, 8, 9]);
    assert_eq!(swap(&mut collection, 70, Some("5")), Swap::Refused);
    assert_eq!(swap(&mut collection, 71, Some("4")), Swap::Refused);
    assert_eq!(swap(&mut collection, 71, Some("four")), Swap::Refused);
    assert_eq!(swap(&mut collection, 71, None), Swap::TimedOut);
    assert_eq!(collection.characters_id, vec![1, 2, 3, 70, 5, 6, 7, 8, 9]);
}

#[test]
fn claim_is_settled_after_the_swap_question() {
    let mut swapped = spawned(1, 70, 10);
    assert!(settle(&mut swapped, true, 60));
    assert_eq!(swapped.current_character_id, None);
    assert!(swapped.claimed);
    assert_eq!(swapped.messages_needed_for_next_spawn, 60);
    let mut kept = spawned(1, 70, 10);
    assert!(settle(&mut kept, false, 60));
    assert_eq!(kept.current_character_id, None);
    assert!(!kept.claimed);
    assert!(!settle(&mut kept, false, 60));
}

#[test]
fn collection_refuses_duplicates() {
    let mut collection = UserCharacters::new(5, 1);
    assert_eq!(collection.add(3, MAX_CHARACTERS), Added::Added);
    assert_eq!(collection.add(3, MAX_CHARACTERS), Added::AlreadyOwned);
    assert_eq!(collection.characters_id, vec![3]);
    assert!(collection.owns(3));
    assert!(!collection.owns(4));
    assert_eq!(collection.position(3), Some(0));
    assert_eq!(collection.position(4), None);
    assert!(!collection.swap(4, 9));
    assert!(collection.swap(3, 9));
    assert_eq!(collection.characters_id, vec![9]);
}

#[test]
fn groups_do_not_share_their_counters() {
    let mut engine = SendCharacter::new(3..4);
    assert_eq!(engine.on_message(1, 10), SpawnAction::Nothing);
    assert_eq!(engine.on_message(1, 11), SpawnAction::Nothing);
    assert_eq!(engine.on_message(2, 50), SpawnAction::Nothing);
    assert_eq!(engine.state(2).unwrap().messages_since_last_spawn, 1);
    assert_eq!(engine.state(1).unwrap().messages_since_last_spawn, 2);
    assert_eq!(engine.on_message(1, 12), SpawnAction::PickCharacter);
    assert_eq!(engine.state(1).unwrap().messages_since_last_spawn, 0);
    assert_eq!(engine.state(2).unwrap().messages_since_last_spawn, 1);
    assert_eq!(engine.state(3), None);
}

#[test]
fn drawn_threshold_lies_in_the_range() {
    let mut engine = SendCharacter::new(80..160);
    for chat in 0..50 {
        engine.on_message(chat, 1);
        let needed = engine.state(chat).unwrap().messages_needed_for_next_spawn;
        assert!((80..160).contains(&needed));
    }
}

#[test]
fn count_message_uses_the_numbers_it_is_given() {
    let mut engine = SendCharacter::new(1..100);
    assert_eq!(engine.count_message(1, 10, 1, 99), SpawnAction::PickCharacter);
    let state = engine.state(1).unwrap();
    assert_eq!(state.messages_since_last_spawn, 0);
    assert_eq!(state.messages_needed_for_next_spawn, 99);
    assert_eq!(engine.count_message(1, 11, 1, 5), SpawnAction::Nothing);
    assert_eq!(engine.state(1).unwrap().messages_needed_for_next_spawn, 99);
}

#[test]
fn only_states_from_the_range_are_filed() {
    let mut engine = SendCharacter::new(80..160);
    assert!(engine.accepts(&GroupSpawnState::new(1, 80)));
    assert!(engine.accepts(&GroupSpawnState::new(1, 159)));
    assert!(!engine.accepts(&GroupSpawnState::new(1, 160)));
    assert!(!engine.accepts(&GroupSpawnState::new(1, 79)));
    let mut broken = GroupSpawnState::new(1, 100);
    broken.messages_since_last_spawn = -1;
    assert!(!engine.accepts(&broken));
    for chat in 0..20 {
        engine.on_message(chat, 1);
        assert!(engine.accepts(&engine.state(chat).unwrap()));
        assert!(engine.record_spawn(chat, 7, 2));
        assert!(engine.close_claim(chat, true));
        assert!(engine.accepts(&engine.state(chat).unwrap()));
    }
}

#[test]
fn engine_refuses_a_second_claim() {
    let mut engine = SendCharacter::new(1..2);
    assert!(!engine.record_spawn(1, 7, 10));
    assert_eq!(engine.select(1, Some(7)), None);
    assert_eq!(engine.on_message(1, 9), SpawnAction::PickCharacter);
    assert_eq!(engine.select(1, Some(7)), Some(7));
    assert!(engine.record_spawn(1, 7, 10));
    assert!(!engine.record_spawn(1, 8, 11));
    assert_eq!(engine.state(1).unwrap().current_character_id, Some(7));
    assert!(engine.close_claim(1, true));
    assert!(!engine.close_claim(1, true));
    assert!(!engine.close_claim(2, true));
    assert_eq!(engine.state(1).unwrap().messages_needed_for_next_spawn, 1);
}

#[test]
fn threshold_one_spawn_then_exact_name_claims() {
    let mut engine = SendCharacter::new(1..2);
    let chat = 77;
    let user = 5;
    assert_eq!(engine.on_message(chat, 100), SpawnAction::PickCharacter);
    let shown = engine.select(chat, Some(42));
    assert_eq!(shown, Some(42));
    assert!(engine.record_spawn(chat, 42, 101));
    let mut state = engine.state(chat).unwrap();
    assert_eq!(state.current_character_id, Some(42));
    let mut collection = UserCharacters::new(user, chat);
    let outcome = guess(
        &mut state,
        &mut collection,
        Some(101),
        false,
        "Aria Nightshade",
        Some("Aria Nightshade"),
        MAX_CHARACTERS,
        1,
    );
    assert_eq!(outcome, Guess::Collected);
    engine.restore(state);
    assert_eq!(collection.characters_id, vec![42]);
    let after = engine.state(chat).unwrap();
    assert_eq!(after.current_character_id, None);
    assert_eq!(after.claim_message_id, None);
    assert!(after.claimed);
    assert_eq!(engine.on_message(chat, 103), SpawnAction::PickCharacter);
    assert_eq!(engine.select(chat, Some(42)), None);
}
