//! Who may use the commands of the administrators.

use crate::modules::conversation::ChatKind;
use vstd::prelude::*;

verus! {

/// The users who administer the bot.
#[derive(Clone, Debug)]
pub struct SudoUser {
    pub ids: Vec<i64>,
}

/// The administrators of the bot.
pub open spec fn spec_sudoers() -> Seq<i64> {
    seq![
        1155717290i64,
        1588846160i64,
        996752722i64,
        1300992799i64,
        254533953i64,
        1363034147i64,
        1412056311i64,
        1459361261i64,
        1517093012i64,
        1269726556i64,
    ]
}

/// The administrators of the bot.
pub fn sudoers() -> (out: SudoUser)
    ensures
        out.ids@ == spec_sudoers(),
{
    let mut ids: Vec<i64> = Vec::new();
    ids.push(1155717290);
    ids.push(1588846160);
    ids.push(996752722);
    ids.push(1300992799);
    ids.push(254533953);
    ids.push(1363034147);
    ids.push(1412056311);
    ids.push(1459361261);
    ids.push(1517093012);
    ids.push(1269726556);
    assert(ids@ =~= spec_sudoers());
    SudoUser { ids }
}

impl SudoUser {
    /// Whether `id` is one of the administrators.
    pub fn contains(&self, id: i64) -> (out: bool)
        ensures
            out == self.ids@.contains(id),
    {
        let mut i: usize = 0;
        while i < self.ids.len()
            invariant
                i <= self.ids@.len(),
                forall|k: int| 0 <= k < i ==> self.ids@[k] != id,
            decreases self.ids.len() - i,
        {
            if self.ids[i] == id {
                return true;
            }
            i = i + 1;
        }
        false
    }

    /// Whether an update comes from an administrator: in a private chat,
    /// the chat is with one; in a group, one sent the message; in a
    /// channel, never.
    pub open spec fn spec_is_ok(&self, chat: ChatKind, chat_id: i64, sender: Option<i64>) -> bool {
        match chat {
            ChatKind::User => self.ids@.contains(chat_id),
            ChatKind::Group => sender is Some && self.ids@.contains(sender->0),
            ChatKind::Channel => false,
        }
    }

    /// Tells whether an update comes from an administrator. `chat_id` is
    /// the chat that it came in, `sender` who sent its message, if it has
    /// a message with a sender.
    pub fn is_ok(&self, chat: ChatKind, chat_id: i64, sender: Option<i64>) -> (out: bool)
        ensures
            out == self.spec_is_ok(chat, chat_id, sender),
    {
        match chat {
            ChatKind::User => self.contains(chat_id),
            ChatKind::Group => match sender {
                Some(id) => self.contains(id),
                None => false,
            },
            ChatKind::Channel => false,
        }
    }
}

} // verus!
