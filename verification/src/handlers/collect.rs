//! Collecting the character that is shown in a group, by replying to it.

use crate::database::{GroupCharacter, UserCharacter};
use vstd::prelude::*;

verus! {

/// What a reply to a shown character leads to.
#[derive(Clone, Copy, Debug, PartialEq, Eq, Structural)]
pub enum Collect {
    /// The reply is not to the message that shows the character, or
    /// somebody else holds the character: nothing happens.
    Ignore,
    /// The sender owns the character already.
    AlreadyCollected,
    /// The sender gets the character.
    Collected,
}

/// What a reply to message `replied_to` from `sender_id` leads to, for the
/// character shown last. `owned` says whether the sender owns it already.
pub open spec fn spec_collect(
    shown: GroupCharacter,
    replied_to: i32,
    sender_id: i64,
    owned: bool,
) -> Collect {
    if shown.collected_by is Some && shown.collected_by != Some(sender_id) {
        Collect::Ignore
    } else if shown.message_id != replied_to {
        Collect::Ignore
    } else if owned {
        Collect::AlreadyCollected
    } else {
        Collect::Collected
    }
}

/// Decides what a reply to message `replied_to` from `sender_id` leads
/// to. A character that somebody else collected is left alone, only a
/// reply to the message that shows the character counts, and nobody
/// collects the same character twice.
pub fn collect(shown: &GroupCharacter, replied_to: i32, sender_id: i64, owned: bool) -> (out:
    Collect)
    ensures
        out == spec_collect(*shown, replied_to, sender_id, owned),
{
    match shown.collected_by {
        Some(holder) => {
            if holder != sender_id {
                return Collect::Ignore;
            }
        },
        None => {},
    }
    if shown.message_id != replied_to {
        Collect::Ignore
    } else if owned {
        Collect::AlreadyCollected
    } else {
        Collect::Collected
    }
}

/// The record of the shown character once `sender_id` collected it, and
/// the row that enters the sender's collection.
pub fn collected(shown: GroupCharacter, sender_id: i64) -> (out: (GroupCharacter, UserCharacter))
    ensures
        out.0 == (GroupCharacter { collected_by: Some(sender_id), ..shown }),
        out.1 == (UserCharacter {
            user_id: sender_id,
            group_id: shown.group_id,
            anilist_id: shown.anilist_id,
            character_id: shown.character_id,
        }),
{
    (
        GroupCharacter { collected_by: Some(sender_id), ..shown },
        UserCharacter {
            user_id: sender_id,
            group_id: shown.group_id,
            anilist_id: shown.anilist_id,
            character_id: shown.character_id,
        },
    )
}

/// A reply to any message but the one that shows the character collects
/// nothing, and after a character was collected nobody else collects it.
pub proof fn lemma_collect_is_gated(
    shown: GroupCharacter,
    replied_to: i32,
    sender_id: i64,
    other_id: i64,
    owned: bool,
)
    ensures
        shown.message_id != replied_to ==> spec_collect(shown, replied_to, sender_id, owned)
            == Collect::Ignore,
        other_id != sender_id ==> spec_collect(
            GroupCharacter { collected_by: Some(sender_id), ..shown },
            replied_to,
            other_id,
            owned,
        ) == Collect::Ignore,
{
}

} // verus!
