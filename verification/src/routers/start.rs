//! The greeting.

use crate::modules::conversation::ChatKind;
use crate::modules::i18n::I18n;
use crate::routers::keyboard::{button, face, Button};
use vstd::prelude::*;
use vstd::string::*;

verus! {

/// The answer to the command that starts the bot.
pub enum Greeting {
    /// In a private chat: the greeting, with a link that adds the bot to a
    /// group.
    Welcome { text: String, link: Button },
    /// In a group: the notice that the bot is started in private, with a
    /// link that leads there.
    NotPrivate { text: String, link: Button },
    /// In a channel: nothing.
    Nothing,
}

/// The link that adds the bot `username` to a group.
pub open spec fn group_link(username: Seq<char>) -> Seq<char> {
    "t.me/"@ + username + "?startgroup=new"@
}

/// The link that leads to the private chat with the bot `username`.
pub open spec fn private_link(username: Seq<char>) -> Seq<char> {
    "t.me/"@ + username + "?start"@
}

/// Writes the answer to the command that starts the bot, which is named
/// `username`, in a chat of kind `chat`. The payload of the button is the
/// address that it opens.
pub fn start(i18n: &I18n, chat: ChatKind, username: &str) -> (out: Greeting)
    ensures
        match chat {
            ChatKind::User => out matches Greeting::Welcome { text, link } && text@
                == i18n.spec_get("start"@) && face(link) == (
                i18n.spec_get("add_to_a_group_button"@),
                group_link(username@),
            ),
            ChatKind::Group => out matches Greeting::NotPrivate { text, link } && text@
                == i18n.spec_get("not_private"@) && face(link) == (
                i18n.spec_get("private_button"@),
                private_link(username@),
            ),
            ChatKind::Channel => out is Nothing,
        },
{
    match chat {
        ChatKind::User => {
            let mut address = String::from_str("t.me/");
            address.append(username);
            address.append("?startgroup=new");
            Greeting::Welcome {
                text: i18n.get("start"),
                link: button(i18n.get("add_to_a_group_button"), address),
            }
        },
        ChatKind::Group => {
            let mut address = String::from_str("t.me/");
            address.append(username);
            address.append("?start");
            Greeting::NotPrivate {
                text: i18n.get("not_private"),
                link: button(i18n.get("private_button"), address),
            }
        },
        ChatKind::Channel => Greeting::Nothing,
    }
}

} // verus!
