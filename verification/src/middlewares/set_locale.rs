//! Speaking the language of the chat that an update comes from.

use crate::modules::conversation::ChatKind;
use crate::modules::i18n::I18n;
use vstd::prelude::*;

verus! {

/// Puts the language of a chat in use. `stored` is the language that is
/// stored for the user of a private chat, or for a group; a channel has
/// none. Where nothing is stored, or the language is not loaded, the
/// language in use stays.
pub fn set_locale(i18n: &mut I18n, chat: ChatKind, stored: Option<&str>)
    ensures
        final(i18n).loaded() == old(i18n).loaded(),
        final(i18n).default_code() == old(i18n).default_code(),
        final(i18n).current() == match (chat, stored) {
            (ChatKind::User, Some(code)) => old(i18n).current_after(code@),
            (ChatKind::Group, Some(code)) => old(i18n).current_after(code@),
            _ => old(i18n).current(),
        },
{
    match chat {
        ChatKind::Channel => {},
        _ => match stored {
            Some(code) => i18n.set_locale(code),
            None => {},
        },
    }
}

} // verus!
