//! The chats that the bot has met, by their number.

use std::collections::HashMap;
use vstd::prelude::*;
use vstd::std_specs::hash::*;

verus! {

broadcast use {vstd::std_specs::hash::group_hash_axioms};

/// What a chat is.
#[derive(Clone, Copy, Debug, PartialEq, Eq, Structural)]
pub enum PackedType {
    User,
    Bot,
    Chat,
    Megagroup,
    Broadcast,
    Gigagroup,
}

/// What is needed to address a chat again.
#[derive(Clone, Copy, Debug, PartialEq, Eq, Structural)]
pub struct PackedChat {
    pub ty: PackedType,
    pub id: i64,
    pub access_hash: Option<i64>,
}

/// The chats that the bot has met.
pub struct Database {
    chats_hash: HashMap<i64, PackedChat>,
}

impl Database {
    /// The chats that are known, by their number.
    pub closed spec fn chats(&self) -> Map<i64, PackedChat> {
        self.chats_hash@
    }

    /// No chat is known yet.
    pub fn new() -> (out: Self)
        ensures
            out.chats() == Map::<i64, PackedChat>::empty(),
    {
        Database { chats_hash: HashMap::new() }
    }

    /// The chat with the number `id`, if it is known.
    pub fn get_chat(&self, id: i64) -> (out: Option<PackedChat>)
        ensures
            out == if self.chats().contains_key(id) {
                Some(self.chats()[id])
            } else {
                None
            },
    {
        match self.chats_hash.get(&id) {
            Some(chat) => Some(*chat),
            None => None,
        }
    }

    /// Remembers a chat. What is known of a chat stays as it was first
    /// learned.
    pub fn save_chat(&mut self, chat: PackedChat)
        ensures
            final(self).chats() == if old(self).chats().contains_key(chat.id) {
                old(self).chats()
            } else {
                old(self).chats().insert(chat.id, chat)
            },
    {
        if !self.chats_hash.contains_key(&chat.id) {
            self.chats_hash.insert(chat.id, chat);
        }
    }
}

} // verus!
