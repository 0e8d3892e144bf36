//! Asking a user something and waiting for the answer.
//!
//! A flow that needs an answer opens a wait for one user. Every update that
//! comes in is offered to the wait of its sender; the first one that the
//! wait accepts fulfils it. A wait that reaches its deadline is retired
//! with no answer. Waits of different users never touch each other.
//!
//! A user has at most one wait at a time: a second one is refused while the
//! first is pending.
//!
//! The engine keeps no clock and sends nothing. The caller says what time
//! it is, in any unit it likes, and tells each update whether the filter of
//! the flow lets it through.

use std::collections::HashMap;
use vstd::prelude::*;
use vstd::std_specs::hash::*;

verus! {

broadcast use {vstd::std_specs::hash::group_hash_axioms};

/// Where an update comes from.
#[derive(Clone, Copy, Debug, PartialEq, Eq, Structural)]
pub enum ChatKind {
    User,
    Group,
    Channel,
}

/// What an update is.
#[derive(Clone, Copy, Debug, PartialEq, Eq, Structural)]
pub enum UpdateKind {
    /// A message.
    Message,
    /// A button was pressed.
    Button,
    /// Anything else.
    Other,
}

/// What the engine reads of an update.
#[derive(Clone, Copy, Debug, PartialEq, Eq, Structural)]
pub struct Update {
    pub chat_id: i64,
    pub chat_kind: ChatKind,
    pub sender_id: Option<i64>,
    pub kind: UpdateKind,
    /// Whether the message has text.
    pub has_text: bool,
    /// Whether the message carries media of any kind.
    pub has_media: bool,
    /// Whether the message carries a photo.
    pub has_photo: bool,
    /// The message that this one replies to.
    pub reply_to: Option<i32>,
}

/// What a wait asks of an update, beyond its sender and the flow's filter.
#[derive(Clone, Copy, Debug, PartialEq, Eq, Structural)]
pub enum Expectation {
    /// Nothing more.
    Anything,
    /// A message of text alone that answers the prompt `prompt_id`.
    Text { prompt_id: i32 },
    /// A message with a photo that answers the prompt `prompt_id`.
    Photo { prompt_id: i32 },
}

/// An open wait.
#[derive(Clone, Copy, Debug, PartialEq, Eq, Structural)]
pub struct PendingWait {
    /// The user whose answer is waited for.
    pub requester_id: i64,
    pub expectation: Expectation,
    /// The time from which on the wait has run out.
    pub deadline: u64,
}

/// Whether a message in a chat of kind `chat` answers the prompt
/// `message_id`: in a private chat every message does, in a group only a
/// reply to the prompt, in a channel none.
pub open spec fn answers_prompt(chat: ChatKind, reply_to: Option<i32>, message_id: i32) -> bool {
    match chat {
        ChatKind::User => true,
        ChatKind::Group => reply_to == Some(message_id),
        ChatKind::Channel => false,
    }
}

/// Tells whether a message in a chat of kind `chat` answers the prompt
/// `message_id`.
pub fn check_message(chat: ChatKind, reply_to: Option<i32>, message_id: i32) -> (out: bool)
    ensures
        out == answers_prompt(chat, reply_to, message_id),
{
    match chat {
        ChatKind::User => true,
        ChatKind::Group => match reply_to {
            Some(id) => id == message_id,
            None => false,
        },
        ChatKind::Channel => false,
    }
}

impl Expectation {
    /// Whether `update` has the shape that the expectation asks for.
    pub open spec fn spec_admits(self, update: Update) -> bool {
        match self {
            Expectation::Anything => true,
            Expectation::Text { prompt_id } => update.kind == UpdateKind::Message
                && update.has_text && !update.has_media && answers_prompt(
                update.chat_kind,
                update.reply_to,
                prompt_id,
            ),
            Expectation::Photo { prompt_id } => update.kind == UpdateKind::Message
                && update.has_photo && answers_prompt(
                update.chat_kind,
                update.reply_to,
                prompt_id,
            ),
        }
    }

    /// Tells whether `update` has the shape that the expectation asks for.
    pub fn admits(&self, update: &Update) -> (out: bool)
        ensures
            out == self.spec_admits(*update),
    {
        match self {
            Expectation::Anything => true,
            Expectation::Text { prompt_id } => update.kind == UpdateKind::Message
                && update.has_text && !update.has_media && check_message(
                update.chat_kind,
                update.reply_to,
                *prompt_id,
            ),
            Expectation::Photo { prompt_id } => update.kind == UpdateKind::Message
                && update.has_photo && check_message(
                update.chat_kind,
                update.reply_to,
                *prompt_id,
            ),
        }
    }
}

/// The deadline of a wait opened at `now` for `timeout`: their sum, or the
/// largest time there is where the sum is beyond it.
pub open spec fn deadline_of(now: u64, timeout: u64) -> u64 {
    if now + timeout > u64::MAX {
        u64::MAX
    } else {
        (now + timeout) as u64
    }
}

impl PendingWait {
    /// Whether the wait has run out at `now`.
    pub open spec fn expired_at(self, now: u64) -> bool {
        now >= self.deadline
    }

    /// Whether `update` is a candidate for the wait: it comes from the user
    /// whose answer is waited for.
    pub open spec fn concerns(self, update: Update) -> bool {
        update.sender_id == Some(self.requester_id)
    }

    /// Whether the wait accepts `update` at `now`, where `filter_ok` says
    /// whether the flow's filter lets the update through.
    pub open spec fn accepts(self, update: Update, filter_ok: bool, now: u64) -> bool {
        &&& !self.expired_at(now)
        &&& self.concerns(update)
        &&& filter_ok
        &&& self.expectation.spec_admits(update)
    }
}

/// How the opening of a wait went.
#[derive(Clone, Copy, Debug, PartialEq, Eq, Structural)]
pub enum Begin {
    /// The wait is open.
    Waiting,
    /// The wait had no time at all: it ended at once, with no answer.
    TimedOut,
    /// The user has a wait pending; this one was refused.
    Busy,
}

/// What became of an update that was offered to the waits.
#[derive(Clone, Copy, Debug, PartialEq, Eq, Structural)]
pub enum Delivery {
    /// Nobody waits for the sender: the update goes its ordinary way.
    NoWait,
    /// The sender's wait had run out. It is retired with no answer, and the
    /// update goes its ordinary way.
    Expired,
    /// The sender's wait does not accept the update and stays open; the
    /// update goes its ordinary way.
    Rejected,
    /// The update fulfils the sender's wait, which is retired; the update
    /// goes to the flow that waited and nowhere else.
    Matched,
}

/// The waits after a wait for `requester` was asked for, and how that went.
pub open spec fn spec_begin(
    pending: Map<i64, PendingWait>,
    requester: i64,
    expectation: Expectation,
    now: u64,
    timeout: u64,
) -> (Map<i64, PendingWait>, Begin) {
    if timeout == 0 {
        (pending, Begin::TimedOut)
    } else if pending.contains_key(requester) {
        (pending, Begin::Busy)
    } else {
        (
            pending.insert(
                requester,
                PendingWait { requester_id: requester, expectation, deadline: deadline_of(now, timeout) },
            ),
            Begin::Waiting,
        )
    }
}

/// The waits after `update` was offered at `now`, and what became of it.
pub open spec fn spec_deliver(
    pending: Map<i64, PendingWait>,
    update: Update,
    filter_ok: bool,
    now: u64,
) -> (Map<i64, PendingWait>, Delivery) {
    match update.sender_id {
        None => (pending, Delivery::NoWait),
        Some(sender) => if !pending.contains_key(sender) {
            (pending, Delivery::NoWait)
        } else if pending[sender].expired_at(now) {
            (pending.remove(sender), Delivery::Expired)
        } else if filter_ok && pending[sender].expectation.spec_admits(update) {
            (pending.remove(sender), Delivery::Matched)
        } else {
            (pending, Delivery::Rejected)
        },
    }
}

/// The waits after the timer of `requester` fired at `now`, and whether a
/// wait was retired.
pub open spec fn spec_timeout(pending: Map<i64, PendingWait>, requester: i64, now: u64) -> (
    Map<i64, PendingWait>,
    bool,
) {
    if pending.contains_key(requester) && pending[requester].expired_at(now) {
        (pending.remove(requester), true)
    } else {
        (pending, false)
    }
}

/// The open waits, one at most for each user.
pub struct Conversation {
    waits: HashMap<i64, PendingWait>,
}

impl Conversation {
    /// The open waits, by the user whose answer each waits for.
    pub closed spec fn pending(&self) -> Map<i64, PendingWait> {
        self.waits@
    }

    /// Every wait is filed under the user whose answer it waits for.
    pub closed spec fn well_formed(&self) -> bool {
        forall|id: i64| #[trigger] self.waits@.contains_key(id) ==> self.waits@[id].requester_id == id
    }

    /// An engine with no open wait.
    pub fn new() -> (out: Self)
        ensures
            out.well_formed(),
            out.pending() == Map::<i64, PendingWait>::empty(),
    {
        Conversation { waits: HashMap::new() }
    }

    /// The wait that is open for `requester`, if one is.
    pub fn waiting(&self, requester: i64) -> (out: Option<PendingWait>)
        ensures
            out == if self.pending().contains_key(requester) {
                Some(self.pending()[requester])
            } else {
                None
            },
    {
        match self.waits.get(&requester) {
            Some(wait) => Some(*wait),
            None => None,
        }
    }

    /// Opens a wait for an update of `requester` that has the shape
    /// `expectation`, from `now` for `timeout`.
    ///
    /// A wait with no time at all ends at once and is never registered. A
    /// wait for a user who has one pending is refused.
    pub fn begin(
        &mut self,
        requester: i64,
        expectation: Expectation,
        now: u64,
        timeout: u64,
    ) -> (out: Begin)
        requires
            old(self).well_formed(),
        ensures
            final(self).well_formed(),
            (final(self).pending(), out) == spec_begin(
                old(self).pending(),
                requester,
                expectation,
                now,
                timeout,
            ),
    {
        if timeout == 0 {
            return Begin::TimedOut;
        }
        if self.waits.contains_key(&requester) {
            return Begin::Busy;
        }
        let deadline = match now.checked_add(timeout) {
            Some(deadline) => deadline,
            None => u64::MAX,
        };
        self.waits.insert(requester, PendingWait { requester_id: requester, expectation, deadline });
        Begin::Waiting
    }

    /// Opens a wait for a message of text alone from `user` that answers
    /// the prompt `prompt_id`, which the caller has sent already.
    pub fn ask_message(&mut self, user: i64, prompt_id: i32, now: u64, timeout: u64) -> (out:
        Begin)
        requires
            old(self).well_formed(),
        ensures
            final(self).well_formed(),
            (final(self).pending(), out) == spec_begin(
                old(self).pending(),
                user,
                Expectation::Text { prompt_id },
                now,
                timeout,
            ),
            timeout == 0 ==> out == Begin::TimedOut && final(self).pending() == old(self).pending(),
    {
        self.begin(user, Expectation::Text { prompt_id }, now, timeout)
    }

    /// Opens a wait for a message with a photo from `user` that answers the
    /// prompt `prompt_id`, which the caller has sent already.
    pub fn ask_photo(&mut self, user: i64, prompt_id: i32, now: u64, timeout: u64) -> (out: Begin)
        requires
            old(self).well_formed(),
        ensures
            final(self).well_formed(),
            (final(self).pending(), out) == spec_begin(
                old(self).pending(),
                user,
                Expectation::Photo { prompt_id },
                now,
                timeout,
            ),
            timeout == 0 ==> out == Begin::TimedOut && final(self).pending() == old(self).pending(),
    {
        self.begin(user, Expectation::Photo { prompt_id }, now, timeout)
    }

    /// Opens a wait for any update from `user` that the flow's filter lets
    /// through.
    pub fn wait_for_update(&mut self, user: i64, now: u64, timeout: u64) -> (out: Begin)
        requires
            old(self).well_formed(),
        ensures
            final(self).well_formed(),
            (final(self).pending(), out) == spec_begin(
                old(self).pending(),
                user,
                Expectation::Anything,
                now,
                timeout,
            ),
            timeout == 0 ==> out == Begin::TimedOut && final(self).pending() == old(self).pending(),
    {
        self.begin(user, Expectation::Anything, now, timeout)
    }

    /// The wait that `update` is a candidate for: the one of its sender.
    /// The caller asks the filter of that wait's flow about the update and
    /// hands the answer to `deliver`.
    pub fn candidate(&self, update: &Update) -> (out: Option<PendingWait>)
        requires
            self.well_formed(),
        ensures
            out == match update.sender_id {
                Some(sender) => if self.pending().contains_key(sender) {
                    Some(self.pending()[sender])
                } else {
                    None
                },
                None => None,
            },
            out is Some ==> out->0.concerns(*update),
    {
        match update.sender_id {
            Some(sender) => self.waiting(sender),
            None => None,
        }
    }

    /// Offers `update` to the waits at `now`; `filter_ok` says whether the
    /// filter of the flow that waits for its sender lets it through.
    ///
    /// Only the wait of the sender can change. It is fulfilled by the first
    /// update that arrives before its deadline, passes the filter and has
    /// the shape that it expects.
    pub fn deliver(&mut self, update: &Update, filter_ok: bool, now: u64) -> (out: Delivery)
        requires
            old(self).well_formed(),
        ensures
            final(self).well_formed(),
            (final(self).pending(), out) == spec_deliver(
                old(self).pending(),
                *update,
                filter_ok,
                now,
            ),
            out == Delivery::Matched <==> update.sender_id is Some && old(self).pending().contains_key(update.sender_id->0) && old(self).pending()[update.sender_id->0].accepts(*update, filter_ok, now),
    {
        let sender = match update.sender_id {
            Some(sender) => sender,
            None => {
                return Delivery::NoWait;
            },
        };
        let wait = match self.waits.get(&sender) {
            Some(wait) => *wait,
            None => {
                return Delivery::NoWait;
            },
        };
        if now >= wait.deadline {
            self.waits.remove(&sender);
            Delivery::Expired
        } else if filter_ok && wait.expectation.admits(update) {
            self.waits.remove(&sender);
            Delivery::Matched
        } else {
            Delivery::Rejected
        }
    }

    /// The timer of `requester` fired at `now`: retires the wait if it has
    /// run out, and says whether it did. A timer that fires early, or for a
    /// wait that is gone, changes nothing.
    pub fn timeout(&mut self, requester: i64, now: u64) -> (retired: bool)
        requires
            old(self).well_formed(),
        ensures
            final(self).well_formed(),
            (final(self).pending(), retired) == spec_timeout(old(self).pending(), requester, now),
    {
        let expired = match self.waits.get(&requester) {
            Some(wait) => now >= wait.deadline,
            None => false,
        };
        if expired {
            self.waits.remove(&requester);
        }
        expired
    }

    /// Retires the wait of `requester` without an answer, and says whether
    /// there was one. Cancelling again changes nothing.
    pub fn cancel(&mut self, requester: i64) -> (cancelled: bool)
        requires
            old(self).well_formed(),
        ensures
            final(self).well_formed(),
            cancelled == old(self).pending().contains_key(requester),
            final(self).pending() == old(self).pending().remove(requester),
            !final(self).pending().contains_key(requester),
    {
        let there = self.waits.contains_key(&requester);
        if there {
            self.waits.remove(&requester);
        } else {
            assert(self.waits@.remove(requester) =~= self.waits@);
        }
        there
    }
}

/// A wait with no time at all ends at once, with no answer, whatever is
/// pending and whoever asks.
pub proof fn lemma_zero_timeout_never_waits(
    pending: Map<i64, PendingWait>,
    requester: i64,
    expectation: Expectation,
    now: u64,
)
    ensures
        spec_begin(pending, requester, expectation, now, 0) == (pending, Begin::TimedOut),
{
}

/// An update leaves the waits of everybody but its sender as they were.
pub proof fn lemma_other_waits_untouched(
    pending: Map<i64, PendingWait>,
    update: Update,
    filter_ok: bool,
    now: u64,
    other: i64,
)
    requires
        update.sender_id != Some(other),
    ensures
        spec_deliver(pending, update, filter_ok, now).0.contains_key(other)
            == pending.contains_key(other),
        pending.contains_key(other) ==> spec_deliver(pending, update, filter_ok, now).0[other]
            == pending[other],
{
}

/// Two waits of two users are both fulfilled, each by the update of its own
/// user, in whichever order the two updates arrive; and the waits that are
/// left are the same either way.
pub proof fn lemma_concurrent_waits_resolve(
    pending: Map<i64, PendingWait>,
    first: Update,
    first_ok: bool,
    first_at: u64,
    second: Update,
    second_ok: bool,
    second_at: u64,
)
    requires
        first.sender_id is Some,
        second.sender_id is Some,
        first.sender_id != second.sender_id,
        pending.contains_key(first.sender_id->0),
        pending.contains_key(second.sender_id->0),
        pending[first.sender_id->0].requester_id == first.sender_id->0,
        pending[second.sender_id->0].requester_id == second.sender_id->0,
        pending[first.sender_id->0].accepts(first, first_ok, first_at),
        pending[second.sender_id->0].accepts(second, second_ok, second_at),
    ensures
        ({
            let one = spec_deliver(pending, first, first_ok, first_at);
            let both = spec_deliver(one.0, second, second_ok, second_at);
            let other = spec_deliver(pending, second, second_ok, second_at);
            let both_reversed = spec_deliver(other.0, first, first_ok, first_at);
            &&& one.1 == Delivery::Matched
            &&& both.1 == Delivery::Matched
            &&& other.1 == Delivery::Matched
            &&& both_reversed.1 == Delivery::Matched
            &&& both.0 == both_reversed.0
            &&& both.0 == pending.remove(first.sender_id->0).remove(second.sender_id->0)
        }),
{
    let a = first.sender_id->0;
    let b = second.sender_id->0;
    assert(pending.remove(a).remove(b) =~= pending.remove(b).remove(a));
}

/// Updates that a wait does not accept leave it open, so that the first
/// update that it does accept is the one that fulfils it.
pub proof fn lemma_first_match_wins(
    pending: Map<i64, PendingWait>,
    earlier: Update,
    earlier_ok: bool,
    earlier_at: u64,
    later: Update,
    later_ok: bool,
    later_at: u64,
)
    requires
        later.sender_id is Some,
        pending.contains_key(later.sender_id->0),
        pending[later.sender_id->0].accepts(later, later_ok, later_at),
        earlier_at <= later_at,
        !(earlier.sender_id == later.sender_id && earlier_ok && pending[later.sender_id->0].expectation.spec_admits(
            earlier,
        )),
    ensures
        ({
            let one = spec_deliver(pending, earlier, earlier_ok, earlier_at);
            let two = spec_deliver(one.0, later, later_ok, later_at);
            &&& one.1 != Delivery::Matched || earlier.sender_id != later.sender_id
            &&& two.1 == Delivery::Matched
        }),
{
}

/// A wait is fulfilled or retired once: after either, an update of the same
/// user finds no wait, and a timer or a cancellation changes nothing.
pub proof fn lemma_wait_ends_once(
    pending: Map<i64, PendingWait>,
    update: Update,
    filter_ok: bool,
    now: u64,
    again: Update,
    again_ok: bool,
    later: u64,
)
    requires
        update.sender_id is Some,
        again.sender_id == update.sender_id,
        spec_deliver(pending, update, filter_ok, now).1 == Delivery::Matched || spec_deliver(
            pending,
            update,
            filter_ok,
            now,
        ).1 == Delivery::Expired,
    ensures
        ({
            let after = spec_deliver(pending, update, filter_ok, now).0;
            &&& spec_deliver(after, again, again_ok, later) == (after, Delivery::NoWait)
            &&& spec_timeout(after, update.sender_id->0, later) == (after, false)
            &&& after.remove(update.sender_id->0) == after
        }),
{
    let after = spec_deliver(pending, update, filter_ok, now).0;
    assert(after.remove(update.sender_id->0) =~= after);
}

} // verus!
