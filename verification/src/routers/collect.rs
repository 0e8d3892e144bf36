//! Guesses at the character that is shown in a group.
//!
//! A guess counts only if it replies to the message that shows the
//! character. Case does not matter; a guess hits when one of its words, of
//! more than two characters, is one of the words of the character's name.
//! Words are what whitespace separates, and nothing else does: a name such
//! as `Jean-Luc` is one word.
//!
//! A miss is a wrong guess. A hit is tested for a bot, which gets nothing
//! and ends the claim, before the character enters a collection. A reply
//! to the message of a character that somebody collected already is told
//! that the character is gone.

use crate::database::models::{Added, Character, UserCharacters};
use crate::middlewares::send_character::GroupSpawnState;
use crate::modules::i18n::I18n;
use crate::routers::keyboard::{
    button, face, faces, grid, layouts, pair, Block, Button, Layout,
};
use crate::text::{
    decimal, i64_to_string, i64_value, is_whitespace_char, lemma_words_of_solid_text, lowercase,
    lowercase_of, parse_i64, replace, replaced, same_text, split_whitespace, u64_to_string, views,
    words,
};
use vstd::prelude::*;
use vstd::string::*;

verus! {

/// The seconds that a user has to say whether to give up a character for
/// the new one.
pub const SWAP_DECISION_TIMEOUT: u64 = 5;

/// The seconds that a user has to say which character to give up.
pub const SWAP_CHOICE_TIMEOUT: u64 = 10;

/// A guessed word must be longer than this to count.
pub const MIN_GUESS_LENGTH: usize = 2;

/// Whether one of the words of a guess, longer than two characters, is one
/// of the words of a name.
pub open spec fn words_hit(guess: Seq<Seq<char>>, name: Seq<Seq<char>>) -> bool {
    exists|i: int, j: int|
        0 <= i < guess.len() && 0 <= j < name.len() && guess[i].len() > MIN_GUESS_LENGTH
            && #[trigger] guess[i] == #[trigger] name[j]
}

/// Whether a guess hits a name, both already in lowercase.
pub open spec fn folded_guess_hits(guess: Seq<char>, name: Seq<char>) -> bool {
    words_hit(words(guess), words(name))
}

/// Whether a guess hits a name, whatever the case of either.
pub open spec fn guess_hits(guess: Seq<char>, name: Seq<char>) -> bool {
    folded_guess_hits(lowercase_of(guess), lowercase_of(name))
}

/// A guess of one word hits a name exactly if the word is longer than two
/// characters and is one of the words of the name: a part of a word does
/// not count, and neither does a word of one or two characters.
pub proof fn lemma_one_word_guess(guess: Seq<char>, name: Seq<char>)
    requires
        guess.len() > 0,
        forall|k: int| 0 <= k < guess.len() ==> !is_whitespace_char(#[trigger] guess[k]),
    ensures
        words(guess) == seq![guess],
        folded_guess_hits(guess, name) <==> guess.len() > MIN_GUESS_LENGTH && exists|j: int|
            0 <= j < words(name).len() && #[trigger] words(name)[j] == guess,
{
    lemma_words_of_solid_text(guess, Seq::<char>::empty());
    assert(Seq::<char>::empty() + guess =~= guess);
    let only = words(guess);
    assert(only =~= seq![guess]);
    if guess.len() > MIN_GUESS_LENGTH && exists|j: int|
        0 <= j < words(name).len() && #[trigger] words(name)[j] == guess {
        let j = choose|j: int| 0 <= j < words(name).len() && #[trigger] words(name)[j] == guess;
        assert(only[0] == words(name)[j]);
        assert(words_hit(only, words(name)));
    }
    if folded_guess_hits(guess, name) {
        let (i, j) = choose|i: int, j: int|
            0 <= i < only.len() && 0 <= j < words(name).len() && only[i].len() > MIN_GUESS_LENGTH
                && #[trigger] only[i] == #[trigger] words(name)[j];
        assert(only[i] == guess);
    }
}

fn word_is_among(word: &String, name: &Vec<String>) -> (out: bool)
    ensures
        out == exists|j: int| 0 <= j < name@.len() && word@ == #[trigger] name@[j]@,
{
    let mut j: usize = 0;
    while j < name.len()
        invariant
            j <= name@.len(),
            forall|k: int| 0 <= k < j ==> word@ != #[trigger] name@[k]@,
        decreases name.len() - j,
    {
        if same_text(word.as_str(), name[j].as_str()) {
            return true;
        }
        j = j + 1;
    }
    false
}

/// Tells whether a guess hits a name, both already in lowercase.
pub fn guess_matches_folded(guess: &str, name: &str) -> (out: bool)
    ensures
        out == folded_guess_hits(guess@, name@),
{
    let guess_words = split_whitespace(guess);
    let name_words = split_whitespace(name);
    let ghost gs = words(guess@);
    let ghost ns = words(name@);
    let mut i: usize = 0;
    while i < guess_words.len()
        invariant
            i <= guess_words@.len(),
            gs == words(guess@),
            ns == words(name@),
            views(guess_words@) == gs,
            views(name_words@) == ns,
            forall|a: int, b: int|
                0 <= a < i && 0 <= b < ns.len() && gs[a].len() > MIN_GUESS_LENGTH ==> #[trigger] gs[a]
                    != #[trigger] ns[b],
        decreases guess_words.len() - i,
    {
        let word = &guess_words[i];
        assert(gs[i as int] == word@);
        if word.as_str().unicode_len() > MIN_GUESS_LENGTH {
            if word_is_among(word, &name_words) {
                let ghost j = choose|j: int|
                    0 <= j < name_words@.len() && word@ == #[trigger] name_words@[j]@;
                assert(ns[j] == name_words@[j]@);
                assert(0 <= i < gs.len() && 0 <= j < ns.len());
                assert(gs[i as int].len() > MIN_GUESS_LENGTH && gs[i as int] == ns[j]);
                assert(words_hit(gs, ns));
                return true;
            }
            assert forall|b: int| 0 <= b < ns.len() implies gs[i as int] != #[trigger] ns[b] by {
                assert(ns[b] == name_words@[b]@);
            }
        }
        i = i + 1;
    }
    false
}

/// Tells whether a guess hits a name, whatever the case of either.
pub fn guess_matches(guess: &str, name: &str) -> (out: bool)
    ensures
        out == guess_hits(guess@, name@),
{
    let guess = lowercase(guess);
    let name = lowercase(name);
    guess_matches_folded(guess.as_str(), name.as_str())
}

/// What became of a message sent in a group where a character may be shown.
#[derive(Clone, Copy, Debug, PartialEq, Eq, Structural)]
pub enum Guess {
    /// The message does not reply to the message that shows a character: it
    /// is ordinary traffic, and nothing changes.
    Ignored,
    /// The message replies to the message that shows a character, but the
    /// record of that character cannot be read; nothing changes.
    NotACharacter,
    /// The message replies to the message of a character that was claimed
    /// already; nothing changes.
    Expired,
    /// The guess is wrong; the claim stays open.
    Wrong,
    /// The guess is right but comes from a bot: the claim is closed and
    /// nobody gets the character.
    Cheated,
    /// The guess is right, but the user owns the character already; the
    /// claim stays open.
    AlreadyOwned,
    /// The guess is right and the character entered the user's collection;
    /// the claim is closed.
    Collected,
    /// The guess is right, but the user's collection is full: the user is
    /// asked whether to give up a character for this one. The claim stays
    /// open until `settle` is told how that ended.
    CollectionFull,
}

/// What a message comes to, from what is known about it: the message it
/// replies to, whether the record of the character shown can be read,
/// whether a bot sent it, and whether its text hits the name of the
/// character.
///
/// Only a reply to the message that shows the character counts. A miss is
/// a wrong guess whoever sends it; a hit is tested for a bot before the
/// character is given away.
pub open spec fn spec_judge(
    state: GroupSpawnState,
    collection: UserCharacters,
    reply_to: Option<i32>,
    known: bool,
    from_bot: bool,
    hit: bool,
    capacity: usize,
) -> Guess {
    if reply_to is None || reply_to != state.shown_message() {
        Guess::Ignored
    } else if !known {
        Guess::NotACharacter
    } else if state.current_character_id is None {
        Guess::Expired
    } else if !hit {
        Guess::Wrong
    } else if from_bot {
        Guess::Cheated
    } else {
        match collection.spec_added(state.current_character_id->0, capacity) {
            Added::AlreadyOwned => Guess::AlreadyOwned,
            Added::Full => Guess::CollectionFull,
            Added::Added => Guess::Collected,
        }
    }
}

/// The state of the group after a message that came to `outcome`.
pub open spec fn state_after(state: GroupSpawnState, outcome: Guess, drawn: i64) -> GroupSpawnState {
    match outcome {
        Guess::Cheated => state.spec_closed(false, drawn),
        Guess::Collected => state.spec_closed(true, drawn),
        _ => state,
    }
}

/// The collection after a message that came to `outcome`.
pub open spec fn collection_after(
    state: GroupSpawnState,
    collection: Seq<i64>,
    outcome: Guess,
) -> Seq<i64> {
    match outcome {
        Guess::Collected => collection.push(state.current_character_id->0),
        _ => collection,
    }
}

/// Judges a message sent in the group of `state` by the owner of
/// `collection`, and applies what it comes to.
///
/// `reply_to` is the message that it replies to, `known` whether the
/// record of the character that `state.shown()` names can be read,
/// `from_bot` whether a bot sent the message or relayed it, `hit` whether
/// its text hits the name of the character, `capacity` the number of
/// characters that a collection holds at most, and `drawn` the number of
/// messages that the next character waits for if this one is collected.
///
/// The collection changes before the claim is closed: a caller that stores
/// both writes the collection first, and closes the claim only once that
/// write went through.
pub fn judge(
    state: &mut GroupSpawnState,
    collection: &mut UserCharacters,
    reply_to: Option<i32>,
    known: bool,
    from_bot: bool,
    hit: bool,
    capacity: usize,
    drawn: i64,
) -> (outcome: Guess)
    requires
        old(state).well_formed(),
        old(collection).well_formed(),
    ensures
        outcome == spec_judge(
            *old(state),
            *old(collection),
            reply_to,
            known,
            from_bot,
            hit,
            capacity,
        ),
        *final(state) == state_after(*old(state), outcome, drawn),
        final(collection).characters_id@ == collection_after(
            *old(state),
            old(collection).characters_id@,
            outcome,
        ),
        final(collection).user_id == old(collection).user_id,
        final(collection).group_id == old(collection).group_id,
        final(state).well_formed(),
        final(collection).well_formed(),
{
    let replied = match (reply_to, state.shown()) {
        (Some(a), Some((b, _))) => a == b,
        _ => false,
    };
    if !replied {
        return Guess::Ignored;
    }
    if !known {
        return Guess::NotACharacter;
    }
    let character_id = match state.current_character_id {
        Some(id) => id,
        None => {
            return Guess::Expired;
        },
    };
    if !hit {
        return Guess::Wrong;
    }
    if from_bot {
        state.close_claim(false, drawn);
        return Guess::Cheated;
    }
    match collection.add(character_id, capacity) {
        Added::AlreadyOwned => Guess::AlreadyOwned,
        Added::Full => Guess::CollectionFull,
        Added::Added => {
            state.close_claim(true, drawn);
            Guess::Collected
        },
    }
}

/// Whether a text hits the name of a character whose record may be
/// missing: nothing hits a missing name.
pub open spec fn hits_name(text: Seq<char>, name: Option<Seq<char>>) -> bool {
    match name {
        Some(name) => guess_hits(text, name),
        None => false,
    }
}

/// Judges the text of a message against the name of the character shown, and
/// applies what it comes to, as `judge` does. `name` is the name in the
/// record of the character that `state.shown()` names, or `None` where
/// that record cannot be read.
pub fn guess(
    state: &mut GroupSpawnState,
    collection: &mut UserCharacters,
    reply_to: Option<i32>,
    from_bot: bool,
    text: &str,
    name: Option<&str>,
    capacity: usize,
    drawn: i64,
) -> (outcome: Guess)
    requires
        old(state).well_formed(),
        old(collection).well_formed(),
    ensures
        outcome == spec_judge(
            *old(state),
            *old(collection),
            reply_to,
            name is Some,
            from_bot,
            hits_name(
                text@,
                match name {
                    Some(name) => Some(name@),
                    None => None,
                },
            ),
            capacity,
        ),
        *final(state) == state_after(*old(state), outcome, drawn),
        final(collection).characters_id@ == collection_after(
            *old(state),
            old(collection).characters_id@,
            outcome,
        ),
        final(collection).user_id == old(collection).user_id,
        final(collection).group_id == old(collection).group_id,
        final(state).well_formed(),
        final(collection).well_formed(),
{
    let hit = match name {
        Some(name) => guess_matches(text, name),
        None => false,
    };
    judge(state, collection, reply_to, name.is_some(), from_bot, hit, capacity, drawn)
}

/// A message that does not reply to the message of the open claim changes
/// neither the claim nor the collection, whatever it says; and one that
/// replies to no message that shows a character is ordinary traffic.
pub proof fn lemma_only_replies_resolve(
    state: GroupSpawnState,
    collection: UserCharacters,
    reply_to: Option<i32>,
    known: bool,
    from_bot: bool,
    hit: bool,
    capacity: usize,
    drawn: i64,
)
    requires
        state.well_formed(),
        reply_to is None || reply_to != state.claim_message_id,
    ensures
        ({
            let outcome = spec_judge(state, collection, reply_to, known, from_bot, hit, capacity);
            &&& outcome == Guess::Ignored || outcome == Guess::NotACharacter || outcome
                == Guess::Expired
            &&& state_after(state, outcome, drawn) == state
            &&& collection_after(state, collection.characters_id@, outcome)
                == collection.characters_id@
            &&& reply_to is None || reply_to != state.shown_message() ==> outcome == Guess::Ignored
        }),
{
}

/// A wrong guess closes no claim, whoever sends it: a bot is told off only
/// for a right one.
pub proof fn lemma_miss_keeps_the_claim(
    state: GroupSpawnState,
    collection: UserCharacters,
    reply_to: Option<i32>,
    known: bool,
    from_bot: bool,
    capacity: usize,
    drawn: i64,
)
    ensures
        ({
            let outcome = spec_judge(state, collection, reply_to, known, from_bot, false, capacity);
            &&& outcome != Guess::Cheated
            &&& outcome != Guess::Collected
            &&& state_after(state, outcome, drawn) == state
        }),
{
}

/// The number of times that `id` occurs in `s`.
pub open spec fn occurrences(s: Seq<i64>, id: i64) -> nat
    decreases s.len(),
{
    if s.len() == 0 {
        0
    } else {
        occurrences(s.drop_last(), id) + if s.last() == id {
            1nat
        } else {
            0nat
        }
    }
}

/// A sequence that does not hold `id` holds it zero times.
pub proof fn lemma_absent_occurs_never(s: Seq<i64>, id: i64)
    requires
        !s.contains(id),
    ensures
        occurrences(s, id) == 0,
    decreases s.len(),
{
    if s.len() > 0 {
        assert(s.last() == s[s.len() - 1]);
        assert forall|k: int| 0 <= k < s.drop_last().len() implies s.drop_last()[k] != id by {
            assert(s.drop_last()[k] == s[k]);
        }
        lemma_absent_occurs_never(s.drop_last(), id);
    }
}

/// A right guess, sent twice, is collected once. After the first message
/// the claim is closed and the collection holds the character exactly once;
/// the second message, a reply to the same message, is told that the
/// character is gone, and changes nothing.
pub proof fn lemma_claim_is_idempotent(
    state: GroupSpawnState,
    collection: UserCharacters,
    reply_to: Option<i32>,
    capacity: usize,
    drawn: i64,
    drawn_again: i64,
)
    requires
        state.well_formed(),
        collection.well_formed(),
        spec_judge(state, collection, reply_to, true, false, true, capacity) == Guess::Collected,
    ensures
        ({
            let character_id = state.current_character_id->0;
            let state1 = state_after(state, Guess::Collected, drawn);
            let owned1 = collection_after(state, collection.characters_id@, Guess::Collected);
            &&& state1.is_idle()
            &&& state1.claimed
            &&& state1.claim_message_id is None
            &&& state1.shown_message() == reply_to
            &&& state1.shown_character() == Some(character_id)
            &&& occurrences(owned1, character_id) == 1
            &&& forall|second: UserCharacters, from_bot: bool, hit: bool|
                second.characters_id@ == owned1 ==> #[trigger] spec_judge(
                    state1,
                    second,
                    reply_to,
                    true,
                    from_bot,
                    hit,
                    capacity,
                ) == Guess::Expired
            &&& state_after(state1, Guess::Expired, drawn_again) == state1
            &&& collection_after(state1, owned1, Guess::Expired) == owned1
        }),
{
    let character_id = state.current_character_id->0;
    let owned = collection.characters_id@;
    let owned1 = owned.push(character_id);
    lemma_absent_occurs_never(owned, character_id);
    assert(owned1.drop_last() =~= owned);
}

// ---------------------------------------------------------------------------
// Giving up a character for a new one
// ---------------------------------------------------------------------------

/// How the question "give up a character for the new one?" was answered.
#[derive(Clone, Copy, Debug, PartialEq, Eq, Structural)]
pub enum Decision {
    /// The user wants to swap: ask which character to give up.
    Swap,
    /// The user keeps the collection: remove the question.
    Keep,
    /// No answer came in time: say so in place of the question.
    TimedOut,
    /// Something else was pressed: leave the question as it is.
    Unknown,
}

/// The decision that an answer stands for; `None` is no answer in time.
pub open spec fn spec_decision(answer: Option<Seq<char>>) -> Decision {
    match answer {
        None => Decision::TimedOut,
        Some(payload) => if payload == "yes"@ {
            Decision::Swap
        } else if payload == "no"@ {
            Decision::Keep
        } else {
            Decision::Unknown
        },
    }
}

/// Reads the answer to "give up a character for the new one?".
pub fn decision(answer: Option<&str>) -> (out: Decision)
    ensures
        out == spec_decision(
            match answer {
                Some(payload) => Some(payload@),
                None => None,
            },
        ),
{
    match answer {
        None => Decision::TimedOut,
        Some(payload) => {
            if same_text(payload, "yes") {
                Decision::Swap
            } else if same_text(payload, "no") {
                Decision::Keep
            } else {
                Decision::Unknown
            }
        },
    }
}

/// How the question "which character do you give up?" ended.
#[derive(Clone, Copy, Debug, PartialEq, Eq, Structural)]
pub enum Swap {
    /// `old_id` left the collection and the new character took its place.
    Swapped { old_id: i64 },
    /// The answer names no character that can be given up; nothing changed.
    Refused,
    /// No answer came in time; nothing changed.
    TimedOut,
}

/// How an answer to "which character do you give up?" ends, for a
/// collection `owned` and the new character `new_id`.
pub open spec fn spec_swap(owned: Seq<i64>, new_id: i64, answer: Option<Seq<char>>) -> Swap {
    match answer {
        None => Swap::TimedOut,
        Some(payload) => match i64_value(payload) {
            Some(old_id) => if owned.contains(old_id) && !owned.contains(new_id) {
                Swap::Swapped { old_id }
            } else {
                Swap::Refused
            },
            None => Swap::Refused,
        },
    }
}

/// Applies the answer to "which character do you give up?": the payload of
/// the button that was pressed, or `None` if none was pressed in time. The
/// character that the payload names gives its place to `new_id`.
pub fn swap(collection: &mut UserCharacters, new_id: i64, answer: Option<&str>) -> (out: Swap)
    requires
        old(collection).well_formed(),
    ensures
        out == spec_swap(
            old(collection).characters_id@,
            new_id,
            match answer {
                Some(payload) => Some(payload@),
                None => None,
            },
        ),
        final(collection).user_id == old(collection).user_id,
        final(collection).group_id == old(collection).group_id,
        final(collection).well_formed(),
        final(collection).characters_id@.len() == old(collection).characters_id@.len(),
        match out {
            Swap::Swapped { old_id } => final(collection).characters_id@.contains(new_id)
                && !final(collection).characters_id@.contains(old_id) && exists|i: int|
                0 <= i < old(collection).characters_id@.len() && old(collection).characters_id@[i]
                    == old_id && final(collection).characters_id@ == old(collection).characters_id@.update(i, new_id),
            _ => final(collection).characters_id@ == old(collection).characters_id@,
        },
{
    match answer {
        None => Swap::TimedOut,
        Some(payload) => match parse_i64(payload) {
            None => Swap::Refused,
            Some(old_id) => {
                if collection.swap(old_id, new_id) {
                    Swap::Swapped { old_id }
                } else {
                    Swap::Refused
                }
            },
        },
    }
}

/// Closes the claim once the question of a full collection is settled,
/// however it was settled: by a swap, by keeping the collection, or by
/// silence. The character counts as claimed only if it was swapped in.
pub fn settle(state: &mut GroupSpawnState, swapped: bool, drawn: i64) -> (closed: bool)
    requires
        old(state).well_formed(),
    ensures
        *final(state) == old(state).spec_closed(swapped, drawn),
        closed == old(state).is_spawned(),
        final(state).is_idle(),
        final(state).well_formed(),
{
    state.close_claim(swapped, drawn)
}

/// The payloads of the buttons that offer the characters of a collection:
/// the number of each, in decimal.
pub fn swap_payloads(collection: &UserCharacters) -> (out: Vec<String>)
    ensures
        out@.len() == collection.characters_id@.len(),
        forall|i: int|
            0 <= i < out@.len() ==> (#[trigger] out@[i])@ == decimal(
                collection.characters_id@[i] as int,
            ),
{
    let mut out: Vec<String> = Vec::new();
    let mut i: usize = 0;
    while i < collection.characters_id.len()
        invariant
            i <= collection.characters_id@.len(),
            out@.len() == i,
            forall|k: int|
                0 <= k < i ==> (#[trigger] out@[k])@ == decimal(collection.characters_id@[k] as int),
        decreases collection.characters_id.len() - i,
    {
        out.push(i64_to_string(collection.characters_id[i]));
        i = i + 1;
    }
    out
}

// ---------------------------------------------------------------------------
// What is said
// ---------------------------------------------------------------------------

/// The text under `key` with `value` in the place of the placeholder
/// `{name}`.
pub open spec fn spec_named(i18n: &I18n, key: Seq<char>, value: Seq<char>) -> Seq<char> {
    replaced(i18n.spec_get(key), "{name}"@, value)
}

/// What is said after a message: nothing where it was ignored, else a
/// notice for what it came to. `name` is the name of the character shown;
/// it is not read where the character is no character.
pub open spec fn spec_guess_notice(i18n: &I18n, outcome: Guess, name: Seq<char>) -> Option<
    Seq<char>,
> {
    match outcome {
        Guess::Ignored => None,
        Guess::NotACharacter => Some(i18n.spec_get("not_a_character"@)),
        Guess::Expired => Some(i18n.spec_get("expired_character"@)),
        Guess::Cheated => Some(spec_named(i18n, "guess_cheated"@, name)),
        Guess::Wrong => Some(i18n.spec_get("wrong_character"@)),
        Guess::AlreadyOwned => Some(i18n.spec_get("has_character"@)),
        Guess::Collected => Some(spec_named(i18n, "character_collected"@, name)),
        Guess::CollectionFull => Some(
            replaced(
                i18n.spec_get("max_characters"@),
                "{timeout}"@,
                decimal(SWAP_DECISION_TIMEOUT as int),
            ),
        ),
    }
}

/// Writes what is said after a message.
pub fn guess_notice(i18n: &I18n, outcome: Guess, name: &str) -> (out: Option<String>)
    ensures
        match out {
            Some(text) => spec_guess_notice(i18n, outcome, name@) == Some(text@),
            None => spec_guess_notice(i18n, outcome, name@) is None,
        },
{
    match outcome {
        Guess::Ignored => None,
        Guess::NotACharacter => Some(i18n.get("not_a_character")),
        Guess::Expired => Some(i18n.get("expired_character")),
        Guess::Cheated => Some(replace(i18n.get("guess_cheated").as_str(), "{name}", name)),
        Guess::Wrong => Some(i18n.get("wrong_character")),
        Guess::AlreadyOwned => Some(i18n.get("has_character")),
        Guess::Collected => Some(
            replace(i18n.get("character_collected").as_str(), "{name}", name),
        ),
        Guess::CollectionFull => Some(
            replace(
                i18n.get("max_characters").as_str(),
                "{timeout}",
                u64_to_string(SWAP_DECISION_TIMEOUT).as_str(),
            ),
        ),
    }
}

/// Once a character was collected, a reply to the message that showed it
/// is answered with the notice that the character is gone, whoever sends
/// it and whatever it says.
pub proof fn lemma_late_reply_is_told(
    i18n: &I18n,
    state: GroupSpawnState,
    collection: UserCharacters,
    late: UserCharacters,
    reply_to: Option<i32>,
    from_bot: bool,
    hit: bool,
    capacity: usize,
    drawn: i64,
    name: Seq<char>,
)
    requires
        state.well_formed(),
        spec_judge(state, collection, reply_to, true, false, true, capacity) == Guess::Collected,
    ensures
        spec_guess_notice(
            i18n,
            spec_judge(
                state_after(state, Guess::Collected, drawn),
                late,
                reply_to,
                true,
                from_bot,
                hit,
                capacity,
            ),
            name,
        ) == Some(i18n.spec_get("expired_character"@)),
{
}

/// Writes the notice that the character `name` escaped.
pub fn escaped_notice(i18n: &I18n, name: &str) -> (out: String)
    ensures
        out@ == spec_named(i18n, "character_escaped"@, name@),
{
    replace(i18n.get("character_escaped").as_str(), "{name}", name)
}

/// The buttons under the question "give up a character for the new one?".
pub open spec fn decision_menu(i18n: &I18n) -> Seq<Layout> {
    seq![
        Layout::Row(
            seq![
                (i18n.spec_get("yes_button"@), "yes"@),
                (i18n.spec_get("no_button"@), "no"@),
            ],
        ),
    ]
}

/// Writes the buttons under the question "give up a character for the new
/// one?".
pub fn write_decision_menu(i18n: &I18n) -> (out: Vec<Block>)
    ensures
        layouts(out@) == decision_menu(i18n),
{
    let yes = button(i18n.get("yes_button"), String::from_str("yes"));
    let no = button(i18n.get("no_button"), String::from_str("no"));
    let mut out: Vec<Block> = Vec::new();
    out.push(pair(yes, no));
    assert(layouts(out@) =~= decision_menu(i18n));
    out
}

/// The question "which character do you give up?".
pub fn choice_question(i18n: &I18n) -> (out: String)
    ensures
        out@ == replaced(
            i18n.spec_get("select_character"@),
            "{timeout}"@,
            decimal(SWAP_CHOICE_TIMEOUT as int),
        ),
{
    replace(
        i18n.get("select_character").as_str(),
        "{timeout}",
        u64_to_string(SWAP_CHOICE_TIMEOUT).as_str(),
    )
}

/// The button that gives up a character: its number and name, and its
/// number as payload.
pub open spec fn choice_face(character: Character) -> (Seq<char>, Seq<char>) {
    (decimal(character.id as int) + ". "@ + character.name@, decimal(character.id as int))
}

/// Writes the buttons that offer the characters of a collection, two to a
/// row.
pub fn write_choice_menu(owned: &Vec<Character>) -> (out: Vec<Block>)
    ensures
        layouts(out@) == seq![
            Layout::Grid(Seq::new(owned@.len(), |k: int| choice_face(owned@[k])), 2),
        ],
{
    let mut buttons: Vec<Button> = Vec::new();
    let mut k: usize = 0;
    while k < owned.len()
        invariant
            k <= owned@.len(),
            buttons@.len() == k,
            forall|j: int| 0 <= j < k ==> face(#[trigger] buttons@[j]) == choice_face(owned@[j]),
        decreases owned.len() - k,
    {
        let number = i64_to_string(owned[k].id);
        let mut label = i64_to_string(owned[k].id);
        label.append(". ");
        label.append(owned[k].name.as_str());
        buttons.push(button(label, number));
        k = k + 1;
    }
    assert(faces(buttons@) =~= Seq::new(owned@.len(), |k: int| choice_face(owned@[k])));
    let mut out: Vec<Block> = Vec::new();
    out.push(grid(buttons, 2));
    assert(layouts(out@) =~= seq![
        Layout::Grid(Seq::new(owned@.len(), |k: int| choice_face(owned@[k])), 2),
    ]);
    out
}

/// The notice that a character gave its place to another.
pub open spec fn spec_swapped_notice(i18n: &I18n, old_name: Seq<char>, new_name: Seq<char>) -> Seq<
    char,
> {
    replaced(replaced(i18n.spec_get("character_swapped"@), "{old}"@, old_name), "{new}"@, new_name)
}

/// Writes the notice that the character `old_name` gave its place to
/// `new_name`.
pub fn swapped_notice(i18n: &I18n, old_name: &str, new_name: &str) -> (out: String)
    ensures
        out@ == spec_swapped_notice(i18n, old_name@, new_name@),
{
    let with_old = replace(i18n.get("character_swapped").as_str(), "{old}", old_name);
    replace(with_old.as_str(), "{new}", new_name)
}

} // verus!
