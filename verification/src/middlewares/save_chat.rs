//! Getting to know the chats and users that updates come from.

use crate::database::models::{Group, User};
use crate::text::same_text;
use vstd::prelude::*;
use vstd::string::*;

verus! {

/// The language of a chat that nothing is known about.
pub open spec fn default_language() -> Seq<char> {
    "en-GB"@
}

/// The locale for the language that a user's client reports: the bot's
/// English for `en`, its Portuguese for `pt`, the reported code itself for
/// any other, and the default where none is reported.
pub open spec fn spec_language_for(reported: Option<Seq<char>>) -> Seq<char> {
    match reported {
        None => default_language(),
        Some(code) => if code == "en"@ {
            "en-GB"@
        } else if code == "pt"@ {
            "pt-BR"@
        } else {
            code
        },
    }
}

/// Picks the locale for the language that a user's client reports.
pub fn language_for(reported: Option<&str>) -> (out: String)
    ensures
        out@ == spec_language_for(
            match reported {
                Some(code) => Some(code@),
                None => None,
            },
        ),
{
    match reported {
        None => String::from_str("en-GB"),
        Some(code) => {
            if same_text(code, "en") {
                String::from_str("en-GB")
            } else if same_text(code, "pt") {
                String::from_str("pt-BR")
            } else {
                String::from_str(code)
            }
        },
    }
}

/// The record of a group that is seen for the first time. It speaks the
/// default language.
pub fn new_group(id: i64, title: &str, username: Option<&str>) -> (out: Group)
    ensures
        out.id == id,
        out.title@ == title@,
        match (out.username, username) {
            (Some(stored), Some(given)) => stored@ == given@,
            (None, None) => true,
            _ => false,
        },
        out.language_code@ == default_language(),
{
    Group {
        id,
        title: String::from_str(title),
        username: match username {
            Some(name) => Some(String::from_str(name)),
            None => None,
        },
        language_code: String::from_str("en-GB"),
    }
}

/// The record of a user who is seen for the first time. The language is
/// the one for what the user's client reports.
pub fn new_user(id: i64, username: Option<&str>, full_name: &str, reported: Option<&str>) -> (out:
    User)
    ensures
        out.id == id,
        out.full_name@ == full_name@,
        match (out.username, username) {
            (Some(stored), Some(given)) => stored@ == given@,
            (None, None) => true,
            _ => false,
        },
        out.language_code@ == spec_language_for(
            match reported {
                Some(code) => Some(code@),
                None => None,
            },
        ),
{
    User {
        id,
        username: match username {
            Some(name) => Some(String::from_str(name)),
            None => None,
        },
        full_name: String::from_str(full_name),
        language_code: language_for(reported),
    }
}

} // verus!
