//! When a character appears in a group, and when an unclaimed one leaves.
//!
//! Every group has a state of its own: a counter of messages, the number of
//! messages that the next appearance waits for, and the claim that is open,
//! if one is. A group is idle while no claim is open and spawned while one
//! is. The transitions are functions of the state and of what happened; the
//! caller performs what they ask for (a lookup, a message) and reports back.

use crate::database::models::GroupCharacter;
use std::collections::HashMap;
use std::ops::Range;
use vstd::prelude::*;
use vstd::std_specs::hash::*;

verus! {

broadcast use {vstd::std_specs::hash::group_hash_axioms};

/// The age, in message numbers, at which an open claim escapes, unless
/// the game is set up with another.
pub const ESCAPE_AGE: i64 = 35;

/// The state of the game in one group.
#[derive(Clone, Copy, Debug, PartialEq, Eq, Structural)]
pub struct GroupSpawnState {
    pub chat_id: i64,
    /// The character that can be claimed now.
    pub current_character_id: Option<i64>,
    /// The message that shows it; a guess must reply to this message.
    pub claim_message_id: Option<i32>,
    /// Whether the character shown last was claimed.
    pub claimed: bool,
    pub messages_since_last_spawn: i64,
    pub messages_needed_for_next_spawn: i64,
    /// The character shown last, whatever became of it.
    pub previous_character_id: Option<i64>,
    /// The message that showed the character shown last, kept while that
    /// character can be claimed and after it was claimed.
    pub last_message_id: Option<i32>,
}

/// What the caller has to do after a message was counted.
#[derive(Clone, Copy, Debug, PartialEq, Eq, Structural)]
pub enum SpawnAction {
    /// Nothing.
    Nothing,
    /// The open claim has expired: tell the group that the character
    /// escaped, in reply to the message that showed it.
    Escaped { character_id: i64, claim_message_id: i32 },
    /// It is time for a character: pick one at random and offer it with
    /// `select`.
    PickCharacter,
}

impl GroupSpawnState {
    /// No claim is open.
    pub open spec fn is_idle(self) -> bool {
        self.current_character_id is None
    }

    /// A claim is open.
    pub open spec fn is_spawned(self) -> bool {
        self.current_character_id is Some
    }

    /// The state is consistent: the character and the message that shows it
    /// are set together, an open claim is not a claimed one, the character
    /// and the message of an open claim are those shown last, the message
    /// shown last is kept in an idle group only for a character that was
    /// claimed, and the counter is not negative.
    pub open spec fn well_formed(self) -> bool {
        &&& self.current_character_id is Some <==> self.claim_message_id is Some
        &&& self.current_character_id is Some ==> !self.claimed
        &&& self.current_character_id is Some ==> self.previous_character_id
            == self.current_character_id
        &&& self.current_character_id is Some ==> self.last_message_id == self.claim_message_id
        &&& self.current_character_id is None && self.last_message_id is Some ==> self.claimed
            && self.previous_character_id is Some
        &&& self.messages_since_last_spawn >= 0
    }

    /// The message that a guess can reply to: the one of the open claim, or
    /// the one of the character shown last where that was claimed.
    pub open spec fn shown_message(self) -> Option<i32> {
        if self.current_character_id is Some {
            self.claim_message_id
        } else if self.claimed {
            self.last_message_id
        } else {
            None
        }
    }

    /// The character that the message of `shown_message` shows.
    pub open spec fn shown_character(self) -> Option<i64> {
        if self.current_character_id is Some {
            self.current_character_id
        } else if self.claimed && self.last_message_id is Some {
            self.previous_character_id
        } else {
            None
        }
    }

    /// The message that a guess can reply to and the character that it
    /// shows, if a reply to any message can be a guess now; the caller reads
    /// the record of that character before it judges a reply.
    pub fn shown(&self) -> (out: Option<(i32, i64)>)
        requires
            self.well_formed(),
        ensures
            match out {
                Some((message_id, character_id)) => self.shown_message() == Some(message_id)
                    && self.shown_character() == Some(character_id),
                None => self.shown_message() is None,
            },
    {
        match (self.current_character_id, self.claim_message_id) {
            (Some(character_id), Some(message_id)) => Some((message_id, character_id)),
            _ => {
                if self.claimed {
                    match (self.last_message_id, self.previous_character_id) {
                        (Some(message_id), Some(character_id)) => Some((message_id, character_id)),
                        _ => None,
                    }
                } else {
                    None
                }
            },
        }
    }

    /// Tells whether the state is consistent.
    pub fn is_well_formed(&self) -> (out: bool)
        ensures
            out == self.well_formed(),
    {
        let paired = self.current_character_id.is_some() == self.claim_message_id.is_some();
        let open_claim_is_unclaimed = self.current_character_id.is_none() || !self.claimed;
        let previous_is_current = match (self.current_character_id, self.previous_character_id) {
            (Some(current), Some(previous)) => current == previous,
            (Some(_), None) => false,
            (None, _) => true,
        };
        let last_is_claim = match self.current_character_id {
            Some(_) => match (self.last_message_id, self.claim_message_id) {
                (Some(last), Some(claim)) => last == claim,
                (None, None) => true,
                _ => false,
            },
            None => self.last_message_id.is_none() || (self.claimed
                && self.previous_character_id.is_some()),
        };
        paired && open_claim_is_unclaimed && previous_is_current && last_is_claim
            && self.messages_since_last_spawn >= 0
    }

    /// The state of a group that nothing has happened in yet.
    pub open spec fn spec_new(chat_id: i64, needed: i64) -> GroupSpawnState {
        GroupSpawnState {
            chat_id,
            current_character_id: None,
            claim_message_id: None,
            claimed: false,
            messages_since_last_spawn: 0,
            messages_needed_for_next_spawn: needed,
            previous_character_id: None,
            last_message_id: None,
        }
    }

    /// The state of a group that nothing has happened in yet; the first
    /// character appears after `needed` messages.
    pub fn new(chat_id: i64, needed: i64) -> (out: GroupSpawnState)
        ensures
            out == Self::spec_new(chat_id, needed),
            out.well_formed(),
            out.is_idle(),
    {
        GroupSpawnState {
            chat_id,
            current_character_id: None,
            claim_message_id: None,
            claimed: false,
            messages_since_last_spawn: 0,
            messages_needed_for_next_spawn: needed,
            previous_character_id: None,
            last_message_id: None,
        }
    }

    /// The state that a stored record of the character shown last stands
    /// for: a claim is open where the record says that the character is
    /// available, and the character counts as claimed where it says that it
    /// is not.
    pub open spec fn spec_from_record(
        chat_id: i64,
        needed: i64,
        record: Option<GroupCharacter>,
    ) -> GroupSpawnState {
        match record {
            None => Self::spec_new(chat_id, needed),
            Some(shown) => GroupSpawnState {
                chat_id,
                current_character_id: if shown.available {
                    Some(shown.character_id)
                } else {
                    None
                },
                claim_message_id: if shown.available {
                    Some(shown.last_message_id)
                } else {
                    None
                },
                claimed: !shown.available,
                messages_since_last_spawn: 0,
                messages_needed_for_next_spawn: needed,
                previous_character_id: Some(shown.character_id),
                last_message_id: Some(shown.last_message_id),
            },
        }
    }

    /// The state of a group whose last shown character is on record, as
    /// after a restart; the next character appears after `needed` messages.
    pub fn from_record(chat_id: i64, needed: i64, record: Option<GroupCharacter>) -> (out:
        GroupSpawnState)
        ensures
            out == Self::spec_from_record(chat_id, needed, record),
            out.well_formed(),
    {
        match record {
            None => GroupSpawnState::new(chat_id, needed),
            Some(shown) => GroupSpawnState {
                chat_id,
                current_character_id: if shown.available {
                    Some(shown.character_id)
                } else {
                    None
                },
                claim_message_id: if shown.available {
                    Some(shown.last_message_id)
                } else {
                    None
                },
                claimed: !shown.available,
                messages_since_last_spawn: 0,
                messages_needed_for_next_spawn: needed,
                previous_character_id: Some(shown.character_id),
                last_message_id: Some(shown.last_message_id),
            },
        }
    }

    /// The record of the open claim, as it is stored; none while the group
    /// is idle.
    pub fn claim_record(&self) -> (out: Option<GroupCharacter>)
        requires
            self.well_formed(),
        ensures
            out == if self.is_spawned() {
                Some(
                    GroupCharacter {
                        group_id: self.chat_id,
                        character_id: self.current_character_id->0,
                        last_message_id: self.claim_message_id->0,
                        available: true,
                    },
                )
            } else {
                None
            },
    {
        match (self.current_character_id, self.claim_message_id) {
            (Some(character_id), Some(last_message_id)) => Some(
                GroupCharacter {
                    group_id: self.chat_id,
                    character_id,
                    last_message_id,
                    available: true,
                },
            ),
            _ => None,
        }
    }

    /// The counter after one more message. It stops at the largest number it
    /// can hold.
    pub open spec fn counted(self) -> i64 {
        if self.messages_since_last_spawn < i64::MAX {
            (self.messages_since_last_spawn + 1) as i64
        } else {
            self.messages_since_last_spawn
        }
    }

    /// Whether the open claim, if any, has expired when message
    /// `message_id` arrives: it is `escape_age` message numbers old.
    pub open spec fn expired_at(self, message_id: i32, escape_age: i64) -> bool {
        self.current_character_id is Some && self.claim_message_id is Some && message_id
            - self.claim_message_id->0 >= escape_age
    }

    /// Whether message `message_id` makes a new character due: no claim is
    /// open and the counter reaches what is needed.
    pub open spec fn due_at(self, message_id: i32) -> bool {
        self.current_character_id is None && self.counted()
            >= self.messages_needed_for_next_spawn
    }

    /// The state after message `message_id`, where `drawn` is the number of
    /// messages that the appearance after the next one waits for.
    pub open spec fn spec_tick(self, message_id: i32, escape_age: i64, drawn: i64) -> GroupSpawnState {
        if self.expired_at(message_id, escape_age) {
            GroupSpawnState {
                current_character_id: None,
                claim_message_id: None,
                claimed: false,
                messages_since_last_spawn: 0,
                last_message_id: None,
                ..self
            }
        } else if self.due_at(message_id) {
            GroupSpawnState {
                messages_since_last_spawn: 0,
                messages_needed_for_next_spawn: drawn,
                ..self
            }
        } else {
            GroupSpawnState { messages_since_last_spawn: self.counted(), ..self }
        }
    }

    /// What the caller has to do after message `message_id`.
    pub open spec fn spec_action(self, message_id: i32, escape_age: i64) -> SpawnAction {
        if self.expired_at(message_id, escape_age) {
            SpawnAction::Escaped {
                character_id: self.current_character_id->0,
                claim_message_id: self.claim_message_id->0,
            }
        } else if self.due_at(message_id) {
            SpawnAction::PickCharacter
        } else {
            SpawnAction::Nothing
        }
    }

    /// Tells whether message `message_id` makes a new character due, so that
    /// the caller knows whether `tick` will use the number it is given.
    pub fn is_due(&self, message_id: i32) -> (out: bool)
        ensures
            out == self.due_at(message_id),
    {
        match self.current_character_id {
            Some(_) => false,
            None => {
                let count = if self.messages_since_last_spawn < i64::MAX {
                    self.messages_since_last_spawn + 1
                } else {
                    self.messages_since_last_spawn
                };
                count >= self.messages_needed_for_next_spawn
            },
        }
    }

    /// Counts message `message_id`.
    ///
    /// An open claim that is `escape_age` message numbers old expires: the
    /// group becomes idle, the counter starts again, and no character is
    /// asked for on the same message. Otherwise, in an idle group whose
    /// counter reaches what is needed, the counter starts again, `drawn`
    /// becomes what is needed next, and a character is asked for. Otherwise
    /// the message is only counted.
    pub fn tick(&mut self, message_id: i32, escape_age: i64, drawn: i64) -> (action: SpawnAction)
        requires
            old(self).well_formed(),
        ensures
            *final(self) == old(self).spec_tick(message_id, escape_age, drawn),
            action == old(self).spec_action(message_id, escape_age),
            final(self).well_formed(),
            action is Escaped ==> final(self).is_idle(),
            action is PickCharacter ==> old(self).is_idle() && final(self).is_idle(),
    {
        if let Some(character_id) = self.current_character_id {
            if let Some(claim_message_id) = self.claim_message_id {
                if (message_id as i64) - (claim_message_id as i64) >= escape_age {
                    self.current_character_id = None;
                    self.claim_message_id = None;
                    self.claimed = false;
                    self.messages_since_last_spawn = 0;
                    self.last_message_id = None;
                    return SpawnAction::Escaped { character_id, claim_message_id };
                }
            }
        }
        let count = if self.messages_since_last_spawn < i64::MAX {
            self.messages_since_last_spawn + 1
        } else {
            self.messages_since_last_spawn
        };
        if self.current_character_id.is_none() && count >= self.messages_needed_for_next_spawn {
            self.messages_since_last_spawn = 0;
            self.messages_needed_for_next_spawn = drawn;
            SpawnAction::PickCharacter
        } else {
            self.messages_since_last_spawn = count;
            SpawnAction::Nothing
        }
    }

    /// The character to show, given the one that was picked at random:
    /// none where nothing was picked, where the pick repeats the character
    /// shown last, or where a claim is open.
    pub open spec fn spec_select(self, candidate: Option<i64>) -> Option<i64> {
        if self.current_character_id is Some || candidate == self.previous_character_id {
            None
        } else {
            candidate
        }
    }

    /// Decides whether the character picked at random is shown. A pick that
    /// repeats the character shown last is dropped without a word, and
    /// nothing is shown while a claim is open.
    pub fn select(&self, candidate: Option<i64>) -> (out: Option<i64>)
        ensures
            out == self.spec_select(candidate),
    {
        if self.current_character_id.is_some() {
            return None;
        }
        match candidate {
            None => None,
            Some(id) => match self.previous_character_id {
                Some(previous) => if previous == id {
                    None
                } else {
                    Some(id)
                },
                None => Some(id),
            },
        }
    }

    /// The state after `character_id` was shown in message `message_id`.
    pub open spec fn spec_spawned(self, character_id: i64, message_id: i32) -> GroupSpawnState {
        if self.current_character_id is Some {
            self
        } else {
            GroupSpawnState {
                current_character_id: Some(character_id),
                claim_message_id: Some(message_id),
                claimed: false,
                previous_character_id: Some(character_id),
                last_message_id: Some(message_id),
                ..self
            }
        }
    }

    /// Records that `character_id` was shown in message `message_id`, which
    /// opens its claim. Refused, with the state unchanged, while another
    /// claim is open.
    pub fn record_spawn(&mut self, character_id: i64, message_id: i32) -> (opened: bool)
        requires
            old(self).well_formed(),
        ensures
            *final(self) == old(self).spec_spawned(character_id, message_id),
            opened == old(self).is_idle(),
            opened ==> final(self).is_spawned(),
            final(self).well_formed(),
    {
        if self.current_character_id.is_some() {
            return false;
        }
        self.current_character_id = Some(character_id);
        self.claim_message_id = Some(message_id);
        self.claimed = false;
        self.previous_character_id = Some(character_id);
        self.last_message_id = Some(message_id);
        true
    }

    /// The state after the open claim was closed.
    pub open spec fn spec_closed(self, claimed: bool, drawn: i64) -> GroupSpawnState {
        if self.current_character_id is None {
            self
        } else {
            GroupSpawnState {
                current_character_id: None,
                claim_message_id: None,
                claimed,
                messages_needed_for_next_spawn: if claimed {
                    drawn
                } else {
                    self.messages_needed_for_next_spawn
                },
                last_message_id: if claimed {
                    self.last_message_id
                } else {
                    None
                },
                ..self
            }
        }
    }

    /// Closes the open claim. `claimed` says whether somebody got the
    /// character; if so, `drawn` becomes what the next appearance waits for,
    /// and the message that showed the character is kept, so that a later
    /// reply to it can be told that the character is gone. Closing an idle
    /// group changes nothing, so a claim is closed once however often this
    /// is called.
    pub fn close_claim(&mut self, claimed: bool, drawn: i64) -> (closed: bool)
        requires
            old(self).well_formed(),
        ensures
            *final(self) == old(self).spec_closed(claimed, drawn),
            closed == old(self).is_spawned(),
            final(self).is_idle(),
            final(self).well_formed(),
    {
        if self.current_character_id.is_none() {
            return false;
        }
        self.current_character_id = None;
        self.claim_message_id = None;
        self.claimed = claimed;
        if claimed {
            self.messages_needed_for_next_spawn = drawn;
        } else {
            self.last_message_id = None;
        }
        true
    }
}

/// A group is idle or spawned and never both, and the character that can be
/// claimed is set exactly while the group is spawned.
pub proof fn lemma_idle_or_spawned(state: GroupSpawnState)
    ensures
        state.is_idle() != state.is_spawned(),
        state.is_spawned() <==> state.current_character_id is Some,
{
}

/// Every transition keeps a consistent state consistent.
pub proof fn lemma_transitions_keep_consistency(
    state: GroupSpawnState,
    message_id: i32,
    escape_age: i64,
    drawn: i64,
    character_id: i64,
    claimed: bool,
)
    requires
        state.well_formed(),
    ensures
        state.spec_tick(message_id, escape_age, drawn).well_formed(),
        state.spec_spawned(character_id, message_id).well_formed(),
        state.spec_closed(claimed, drawn).well_formed(),
{
}

/// The state after the messages `first, first + 1, ..` up to `count` of
/// them, each counted with the same `drawn`.
pub open spec fn after_messages(
    state: GroupSpawnState,
    first: int,
    count: nat,
    escape_age: i64,
    drawn: i64,
) -> GroupSpawnState
    decreases count,
{
    if count == 0 {
        state
    } else {
        after_messages(state, first, (count - 1) as nat, escape_age, drawn).spec_tick(
            (first + count - 1) as i32,
            escape_age,
            drawn,
        )
    }
}

/// The number of messages among the first `count` that asked for a
/// character.
pub open spec fn picks_during(
    state: GroupSpawnState,
    first: int,
    count: nat,
    escape_age: i64,
    drawn: i64,
) -> nat
    decreases count,
{
    if count == 0 {
        0
    } else {
        let before = after_messages(state, first, (count - 1) as nat, escape_age, drawn);
        let pick: nat = if before.spec_action((first + count - 1) as i32, escape_age)
            == SpawnAction::PickCharacter {
            1
        } else {
            0
        };
        picks_during(state, first, (count - 1) as nat, escape_age, drawn) + pick
    }
}

/// In an idle group, the messages that are still missing ask for exactly
/// one character, with the last of them, and leave the counter at zero.
pub proof fn lemma_one_spawn_when_due(
    state: GroupSpawnState,
    first: int,
    escape_age: i64,
    drawn: i64,
)
    requires
        state.well_formed(),
        state.is_idle(),
        state.messages_since_last_spawn < state.messages_needed_for_next_spawn,
        i32::MIN <= first,
        first + (state.messages_needed_for_next_spawn - state.messages_since_last_spawn)
            <= i32::MAX,
    ensures
        ({
            let missing = (state.messages_needed_for_next_spawn
                - state.messages_since_last_spawn) as nat;
            &&& picks_during(state, first, missing, escape_age, drawn) == 1
            &&& picks_during(state, first, (missing - 1) as nat, escape_age, drawn) == 0
            &&& after_messages(state, first, missing, escape_age, drawn).messages_since_last_spawn
                == 0
            &&& after_messages(state, first, missing, escape_age, drawn).is_idle()
        }),
{
    let missing = (state.messages_needed_for_next_spawn - state.messages_since_last_spawn) as nat;
    lemma_quiet_before_due(state, first, (missing - 1) as nat, escape_age, drawn);
}

/// In an idle group, messages that do not reach what is needed are only
/// counted.
pub proof fn lemma_quiet_before_due(
    state: GroupSpawnState,
    first: int,
    count: nat,
    escape_age: i64,
    drawn: i64,
)
    requires
        state.well_formed(),
        state.is_idle(),
        state.messages_since_last_spawn + count < state.messages_needed_for_next_spawn,
    ensures
        picks_during(state, first, count, escape_age, drawn) == 0,
        after_messages(state, first, count, escape_age, drawn) == (GroupSpawnState {
            messages_since_last_spawn: (state.messages_since_last_spawn + count) as i64,
            ..state
        }),
    decreases count,
{
    if count > 0 {
        lemma_quiet_before_due(state, first, (count - 1) as nat, escape_age, drawn);
    }
}

/// A claim that has expired is closed by the next message, which asks for
/// no character; the message after that finds the group idle and cannot
/// close a claim again.
pub proof fn lemma_escape_happens_once(
    state: GroupSpawnState,
    message_id: i32,
    next_message_id: i32,
    escape_age: i64,
    drawn: i64,
)
    requires
        state.well_formed(),
        state.is_spawned(),
        message_id - state.claim_message_id->0 >= escape_age,
    ensures
        state.spec_action(message_id, escape_age) == (SpawnAction::Escaped {
            character_id: state.current_character_id->0,
            claim_message_id: state.claim_message_id->0,
        }),
        state.spec_tick(message_id, escape_age, drawn).is_idle(),
        state.spec_tick(message_id, escape_age, drawn).messages_since_last_spawn == 0,
        !(state.spec_tick(message_id, escape_age, drawn).spec_action(next_message_id, escape_age)
            is Escaped),
{
}

/// The game in every group: the range that the waits are drawn from, and
/// one state for each group that a message has been seen in.
pub struct SendCharacter {
    min_messages: i64,
    max_messages: i64,
    escape_age: i64,
    chats: HashMap<i64, GroupSpawnState>,
}

/// A number drawn at random from `min..max`.
///
/// Trusted: wraps `rand::thread_rng` and `Rng::gen_range`, which panics on
/// an empty range and otherwise returns a value of the range. Which value
/// comes is left open. The generator of a thread is seeded from the
/// system when it is first used, and panics if the system gives it no
/// random bytes; no condition on the arguments leaves that out.
#[verifier::external_body]
fn draw(min: i64, max: i64) -> (out: i64)
    requires
        min < max,
    ensures
        min <= out < max,
{
    rand::Rng::gen_range(&mut rand::thread_rng(), min..max)
}

impl SendCharacter {
    /// The least number of messages between two characters.
    pub closed spec fn min_messages(&self) -> i64 {
        self.min_messages
    }

    /// The bound that the number of messages between two characters stays
    /// under.
    pub closed spec fn max_messages(&self) -> i64 {
        self.max_messages
    }

    /// The age, in message numbers, at which an open claim escapes.
    pub closed spec fn escape_age(&self) -> i64 {
        self.escape_age
    }

    /// The state of each group that a message has been seen in.
    pub closed spec fn states(&self) -> Map<i64, GroupSpawnState> {
        self.chats@
    }

    /// The range is not empty, and every state is consistent, filed under
    /// its own group, and waits for a number of messages from the range.
    pub closed spec fn well_formed(&self) -> bool {
        &&& self.min_messages < self.max_messages
        &&& forall|id: i64| #[trigger]
            self.chats@.contains_key(id) ==> self.chats@[id].well_formed() && self.chats@[id].chat_id
                == id && self.min_messages <= self.chats@[id].messages_needed_for_next_spawn
                < self.max_messages
    }

    /// Whether `needed` is a number of messages from the range of the game.
    pub open spec fn in_range(&self, needed: i64) -> bool {
        self.min_messages() <= needed < self.max_messages()
    }

    /// Whether `state` can be on file: it is consistent and waits for a
    /// number of messages from the range.
    pub open spec fn admits(&self, state: GroupSpawnState) -> bool {
        state.well_formed() && self.in_range(state.messages_needed_for_next_spawn)
    }

    /// Tells whether `state` can be on file.
    pub fn accepts(&self, state: &GroupSpawnState) -> (out: bool)
        ensures
            out == self.admits(*state),
    {
        state.is_well_formed() && self.min_messages <= state.messages_needed_for_next_spawn
            && state.messages_needed_for_next_spawn < self.max_messages
    }

    /// A game in which the number of messages between two characters is
    /// drawn from `range`, and a claim escapes at the age of `ESCAPE_AGE`.
    pub fn new(range: Range<i64>) -> (out: Self)
        requires
            range.start < range.end,
        ensures
            out.well_formed(),
            out.min_messages() == range.start,
            out.max_messages() == range.end,
            out.escape_age() == ESCAPE_AGE,
            out.states() == Map::<i64, GroupSpawnState>::empty(),
    {
        Self::with_escape_age(range, ESCAPE_AGE)
    }

    /// A game in which the number of messages between two characters is
    /// drawn from `range`, and a claim escapes at the age of `escape_age`.
    pub fn with_escape_age(range: Range<i64>, escape_age: i64) -> (out: Self)
        requires
            range.start < range.end,
        ensures
            out.well_formed(),
            out.min_messages() == range.start,
            out.max_messages() == range.end,
            out.escape_age() == escape_age,
            out.states() == Map::<i64, GroupSpawnState>::empty(),
    {
        SendCharacter {
            min_messages: range.start,
            max_messages: range.end,
            escape_age,
            chats: HashMap::new(),
        }
    }

    /// Draws the number of messages that a character waits for, from the
    /// range of the game.
    pub fn draw_threshold(&self) -> (out: i64)
        requires
            self.well_formed(),
        ensures
            self.min_messages() <= out < self.max_messages(),
    {
        draw(self.min_messages, self.max_messages)
    }

    /// The state of group `group_id`, if a message has been seen in it. A
    /// state that a consistent game hands out is consistent.
    pub fn state(&self, group_id: i64) -> (out: Option<GroupSpawnState>)
        ensures
            out == if self.states().contains_key(group_id) {
                Some(self.states()[group_id])
            } else {
                None
            },
            self.well_formed() && out is Some ==> self.admits(out->0) && out->0.chat_id
                == group_id,
    {
        match self.chats.get(&group_id) {
            Some(state) => Some(*state),
            None => None,
        }
    }

    /// Files `state` under its group, in the place of what was on file.
    pub fn restore(&mut self, state: GroupSpawnState)
        requires
            old(self).well_formed(),
            old(self).admits(state),
        ensures
            final(self).well_formed(),
            final(self).min_messages() == old(self).min_messages(),
            final(self).max_messages() == old(self).max_messages(),
            final(self).escape_age() == old(self).escape_age(),
            final(self).states() == old(self).states().insert(state.chat_id, state),
    {
        self.chats.insert(state.chat_id, state);
    }

    /// The state that a message in group `group_id` is counted on: the one
    /// on file, or a new one that waits for `initial` messages.
    pub open spec fn state_or_new(&self, group_id: i64, initial: i64) -> GroupSpawnState {
        if self.states().contains_key(group_id) {
            self.states()[group_id]
        } else {
            GroupSpawnState::spec_new(group_id, initial)
        }
    }

    /// Counts message `message_id` of group `group_id`, with the numbers
    /// that were drawn from the range of the game: `initial` is what a group
    /// seen for the first time waits for, `drawn` what a group waits for
    /// after a character became due. Only the state of this group changes.
    pub fn count_message(
        &mut self,
        group_id: i64,
        message_id: i32,
        initial: i64,
        drawn: i64,
    ) -> (action: SpawnAction)
        requires
            old(self).well_formed(),
            old(self).in_range(initial),
            old(self).in_range(drawn),
        ensures
            final(self).well_formed(),
            final(self).min_messages() == old(self).min_messages(),
            final(self).max_messages() == old(self).max_messages(),
            final(self).escape_age() == old(self).escape_age(),
            final(self).states() == old(self).states().insert(
                group_id,
                old(self).state_or_new(group_id, initial).spec_tick(
                    message_id,
                    old(self).escape_age(),
                    drawn,
                ),
            ),
            action == old(self).state_or_new(group_id, initial).spec_action(
                message_id,
                old(self).escape_age(),
            ),
    {
        let mut state = match self.chats.get(&group_id) {
            Some(state) => *state,
            None => GroupSpawnState::new(group_id, initial),
        };
        let action = state.tick(message_id, self.escape_age, drawn);
        self.chats.insert(group_id, state);
        action
    }

    /// Counts message `message_id` of group `group_id`, drawing the numbers
    /// of messages to wait for from the range of the game. Whatever is
    /// drawn, only the state of this group changes, a group seen before
    /// moves by `tick`, and a number that is put in force comes from the
    /// range.
    pub fn on_message(&mut self, group_id: i64, message_id: i32) -> (action: SpawnAction)
        requires
            old(self).well_formed(),
        ensures
            final(self).well_formed(),
            final(self).min_messages() == old(self).min_messages(),
            final(self).max_messages() == old(self).max_messages(),
            final(self).escape_age() == old(self).escape_age(),
            exists|initial: i64, drawn: i64|
                {
                    &&& old(self).min_messages() <= initial < old(self).max_messages()
                    &&& old(self).min_messages() <= drawn < old(self).max_messages()
                    &&& final(self).states() == old(self).states().insert(
                        group_id,
                        old(self).state_or_new(group_id, initial).spec_tick(
                            message_id,
                            old(self).escape_age(),
                            drawn,
                        ),
                    )
                    &&& action == old(self).state_or_new(group_id, initial).spec_action(
                        message_id,
                        old(self).escape_age(),
                    )
                },
    {
        let initial = draw(self.min_messages, self.max_messages);
        let drawn = draw(self.min_messages, self.max_messages);
        self.count_message(group_id, message_id, initial, drawn)
    }

    /// Decides whether the character picked at random is shown in group
    /// `group_id`. Nothing is shown in a group that no message was counted
    /// in.
    pub fn select(&self, group_id: i64, candidate: Option<i64>) -> (out: Option<i64>)
        ensures
            out == if self.states().contains_key(group_id) {
                self.states()[group_id].spec_select(candidate)
            } else {
                None
            },
    {
        match self.chats.get(&group_id) {
            Some(state) => state.select(candidate),
            None => None,
        }
    }

    /// Records that `character_id` was shown in group `group_id` in message
    /// `message_id`. Refused, with nothing changed, while a claim is open
    /// there or where no message was counted in the group.
    pub fn record_spawn(&mut self, group_id: i64, character_id: i64, message_id: i32) -> (opened:
        bool)
        requires
            old(self).well_formed(),
        ensures
            final(self).well_formed(),
            final(self).min_messages() == old(self).min_messages(),
            final(self).max_messages() == old(self).max_messages(),
            final(self).escape_age() == old(self).escape_age(),
            opened == (old(self).states().contains_key(group_id) && old(self).states()[group_id].is_idle()),
            final(self).states() == if old(self).states().contains_key(group_id) {
                old(self).states().insert(
                    group_id,
                    old(self).states()[group_id].spec_spawned(character_id, message_id),
                )
            } else {
                old(self).states()
            },
    {
        let found = match self.chats.get(&group_id) {
            Some(state) => Some(*state),
            None => None,
        };
        match found {
            Some(state) => {
                let mut state = state;
                let opened = state.record_spawn(character_id, message_id);
                self.chats.insert(group_id, state);
                opened
            },
            None => false,
        }
    }

    /// Closes the claim that is open in group `group_id`, if one is.
    /// `claimed` says whether somebody got the character; if so, the number
    /// of messages that the next character waits for is drawn anew.
    pub fn close_claim(&mut self, group_id: i64, claimed: bool) -> (closed: bool)
        requires
            old(self).well_formed(),
        ensures
            final(self).well_formed(),
            final(self).min_messages() == old(self).min_messages(),
            final(self).max_messages() == old(self).max_messages(),
            final(self).escape_age() == old(self).escape_age(),
            closed == (old(self).states().contains_key(group_id) && old(self).states()[group_id].is_spawned()),
            final(self).states().dom() == old(self).states().dom(),
            forall|id: i64|
                id != group_id && old(self).states().contains_key(id) ==> #[trigger] final(self).states()[id] == old(self).states()[id],
            old(self).states().contains_key(group_id) ==> exists|drawn: i64|
                {
                    &&& old(self).min_messages() <= drawn < old(self).max_messages()
                    &&& #[trigger] final(self).states()[group_id] == old(self).states()[group_id].spec_closed(claimed, drawn)
                },
    {
        let found = match self.chats.get(&group_id) {
            Some(state) => Some(*state),
            None => None,
        };
        match found {
            Some(state) => {
                let mut state = state;
                let drawn = draw(self.min_messages, self.max_messages);
                let closed = state.close_claim(claimed, drawn);
                self.chats.insert(group_id, state);
                assert(final(self).states().dom() =~= old(self).states().dom());
                closed
            },
            None => false,
        }
    }
}

/// What happens in one group leaves every other group as it was.
pub proof fn lemma_groups_are_independent(
    states: Map<i64, GroupSpawnState>,
    group_id: i64,
    other_id: i64,
    next: GroupSpawnState,
)
    requires
        group_id != other_id,
    ensures
        states.insert(group_id, next).contains_key(other_id) == states.contains_key(other_id),
        states.contains_key(other_id) ==> states.insert(group_id, next)[other_id]
            == states[other_id],
{
}

} // verus!
