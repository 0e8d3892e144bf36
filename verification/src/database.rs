//! Stored records.
//!
//! The flat records in this module are the rows of the collection tables as
//! they are keyed; the richer records that the game works on are in
//! [`models`].

use vstd::prelude::*;

pub mod models;

verus! {

/// A person known to the bot.
#[derive(Clone, Debug)]
pub struct User {
    pub id: i64,
    pub username: Option<String>,
    pub first_name: String,
    pub last_name: Option<String>,
    pub language_code: String,
}

/// A group chat known to the bot.
#[derive(Clone, Debug)]
pub struct Group {
    pub id: i64,
    pub username: Option<String>,
    pub language_code: String,
}

/// A collectible character, by its catalogue entry.
#[derive(Clone, Debug)]
pub struct Character {
    pub id: i64,
    pub name: String,
    pub stars: u8,
    pub gender: String,
    pub anilist_id: i64,
}

/// A character shown in a group, and who collected it, if anyone did.
#[derive(Clone, Copy, Debug)]
pub struct GroupCharacter {
    pub group_id: i64,
    pub anilist_id: i64,
    pub message_id: i32,
    pub character_id: i64,
    pub collected_by: Option<i64>,
}

/// One character owned by one user in one group.
#[derive(Clone, Copy, Debug)]
pub struct UserCharacter {
    pub user_id: i64,
    pub group_id: i64,
    pub anilist_id: i64,
    pub character_id: i64,
}

} // verus!
