//! Showing a user the characters that they own in a group.

use crate::database::models::{Character, Series, UserCharacters};
use crate::routers::admin::series::{append_page_mark, page_mark};
use crate::routers::keyboard::{faces, numbered, spec_numbered, Button};
use crate::routers::pages::{page_request, pager, spec_page_request, write_pager};
use crate::text::{same_text, split_whitespace, views, words};
use crate::utils::{character_info, construct_character_info};
use vstd::prelude::*;
use vstd::string::*;

verus! {

/// Whether the text of a request asks for the characters one by one: its
/// last word is `i`.
pub open spec fn spec_wants_individually(text: Seq<char>) -> bool {
    words(text).len() > 0 && words(text).last() == "i"@
}

/// Tells whether the text of a request asks for the characters one by one.
pub fn wants_individually(text: &str) -> (out: bool)
    ensures
        out == spec_wants_individually(text@),
{
    let parts = split_whitespace(text);
    if parts.len() == 0 {
        return false;
    }
    assert(views(parts@).last() == parts@[parts@.len() - 1]@);
    same_text(parts[parts.len() - 1].as_str(), "i")
}

/// The place that a request asks for, counted from 1, for the user
/// `sender_id`: the one that the payload names, or the first for a
/// command. `None` where the buttons belong to somebody else.
pub fn place_request(parts: Option<&Vec<String>>, sender_id: i64) -> (out: Option<usize>)
    ensures
        out == match parts {
            Some(parts) => spec_page_request(views(parts@), 1, sender_id),
            None => Some(1usize),
        },
{
    match parts {
        Some(parts) => page_request(parts, 1, sender_id),
        None => Some(1),
    }
}

/// The character at place `index`, counted from 1, of a collection.
pub open spec fn spec_pick(owned: Seq<i64>, index: usize) -> Option<i64> {
    if 1 <= index <= owned.len() {
        Some(owned[index - 1])
    } else {
        None
    }
}

/// Picks the character at place `index`, counted from 1, of a collection;
/// `None` where the collection has no such place.
pub fn pick(collection: &UserCharacters, index: usize) -> (out: Option<i64>)
    ensures
        out == spec_pick(collection.characters_id@, index),
{
    if index >= 1 && index <= collection.characters_id.len() {
        Some(collection.characters_id[index - 1])
    } else {
        None
    }
}

/// The text under a character of a collection: its description and, two
/// lines below, its place among the `total` characters.
pub open spec fn spec_caption(
    character: Character,
    series: Option<Series>,
    index: int,
    total: int,
) -> Seq<char> {
    character_info(character, series) + "\n\n"@ + page_mark(index, total)
}

/// Writes the text under the character at place `index` of `total`.
pub fn caption(character: &Character, series: Option<Series>, index: usize, total: usize) -> (out:
    String)
    ensures
        out@ == spec_caption(*character, series, index as int, total as int),
{
    let mut out = construct_character_info(character, series);
    out.append("\n\n");
    append_page_mark(&mut out, index, total);
    out
}

/// The payload that leads to a place in the collection of `sender_id`, up
/// to the place.
pub open spec fn place_head(sender_id: i64) -> Seq<char> {
    spec_numbered("list "@, sender_id as int, " "@)
}

/// Writes the buttons under the character at place `index` of `total`:
/// back and on. Where the list is empty, the message gets no buttons.
pub fn write_buttons(sender_id: i64, index: usize, total: usize) -> (out: Vec<Button>)
    ensures
        faces(out@) == pager(place_head(sender_id), index as int, total as int, false),
{
    let head = numbered("list ", sender_id, " ");
    write_pager(head.as_str(), index, total, false)
}

} // verus!
