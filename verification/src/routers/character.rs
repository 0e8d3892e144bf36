//! Looking at a character, liking it, and searching for characters.

use crate::database::models::Character;
use crate::modules::i18n::I18n;
use crate::routers::admin::menus::{card_menu, labelled, write_card_menu};
use crate::routers::keyboard::{
    button, face, layouts, numbered, pair, single, spec_numbered, Block, Button, Layout,
};
use crate::text::{
    contains_text, decimal, i64_value, join_from, joined, occurs_in, parse_i64, replace, replaced,
    u64_to_string, views,
};
use crate::utils::{escape_html, escaped};
use vstd::prelude::*;
use vstd::string::*;

verus! {

/// The number of results on a page of a search.
pub const SEARCH_PAGE: u16 = 15;

/// What a request to see a character comes to.
#[derive(Clone, Copy, Debug, PartialEq, Eq, Structural)]
pub enum See {
    /// There is no request at all.
    Ignore,
    /// The bare command of an administrator: offer to add a character or
    /// to list them all.
    Menu,
    /// The bare command of anybody else: say how the command is used.
    Usage,
    /// The request is a search.
    Search,
    /// Show the character with this number.
    ById(i64),
    /// Show the character whose name `lookup_name` gives.
    ByName,
}

/// What the words of a request to see a character come to, by whether an
/// administrator sent it. The first word is the command; a second word
/// with an `s` in it makes the request a search; else the second word is
/// the number of the character, or the words behind the command are its
/// name.
pub open spec fn spec_see(parts: Seq<Seq<char>>, is_sudo: bool) -> See {
    if parts.len() == 0 {
        See::Ignore
    } else if parts.len() == 1 {
        if is_sudo {
            See::Menu
        } else {
            See::Usage
        }
    } else if occurs_in(parts[1], "s"@) {
        See::Search
    } else {
        match i64_value(parts[1]) {
            Some(id) => See::ById(id),
            None => See::ByName,
        }
    }
}

/// Reads a request to see a character, split into words.
pub fn see(parts: &Vec<String>, is_sudo: bool) -> (out: See)
    ensures
        out == spec_see(views(parts@), is_sudo),
{
    if parts.len() == 0 {
        See::Ignore
    } else if parts.len() == 1 {
        if is_sudo {
            See::Menu
        } else {
            See::Usage
        }
    } else if contains_text(parts[1].as_str(), "s") {
        See::Search
    } else {
        match parse_i64(parts[1].as_str()) {
            Some(id) => See::ById(id),
            None => See::ByName,
        }
    }
}

/// The name that a request gives: the words from place `from` on, with one
/// space between them.
pub fn lookup_name(parts: &Vec<String>, from: usize) -> (out: String)
    requires
        from <= parts@.len(),
    ensures
        out@ == joined(views(parts@).skip(from as int), " "@),
{
    join_from(parts, from, " ")
}

/// How a command is used: the text `invalid_command` with the command and
/// what it takes, escaped for HTML.
pub open spec fn spec_usage(i18n: &I18n, command: Seq<char>, takes: Seq<char>) -> Seq<char> {
    replaced(i18n.spec_get("invalid_command"@), "{cmd}"@, escaped(command + " "@ + takes))
}

/// Writes how a command is used; `takes` says what it takes, such as
/// `<name|id>`.
pub fn usage(i18n: &I18n, command: &str, takes: &str) -> (out: String)
    ensures
        out@ == spec_usage(i18n, command@, takes@),
{
    let mut shown = String::from_str(command);
    shown.append(" ");
    shown.append(takes);
    let safe = escape_html(shown.as_str());
    replace(i18n.get("invalid_command").as_str(), "{cmd}", safe.as_str())
}

/// What the bare command of an administrator offers: to add a record of
/// kind `kind`, or to list them all.
pub open spec fn admin_menu(i18n: &I18n, kind: Seq<char>) -> Seq<Layout> {
    seq![
        Layout::Row(
            seq![
                (i18n.spec_get("add_button"@), kind + " add"@),
                (i18n.spec_get("list_button"@), kind + " list 1"@),
            ],
        ),
    ]
}

/// Writes what the bare command of an administrator offers.
pub fn write_admin_menu(i18n: &I18n, kind: &str) -> (out: Vec<Block>)
    ensures
        layouts(out@) == admin_menu(i18n, kind@),
{
    let mut add = String::from_str(kind);
    add.append(" add");
    let mut list = String::from_str(kind);
    list.append(" list 1");
    let mut out: Vec<Block> = Vec::new();
    out.push(pair(labelled(i18n, "add_button", add), labelled(i18n, "list_button", list)));
    assert(layouts(out@) =~= admin_menu(i18n, kind@));
    out
}

/// The button that likes a record: a heart and the number of likes, and
/// `verb` with the number of the record as payload.
pub open spec fn like_face(verb: Seq<char>, id: i64, likes: nat) -> (Seq<char>, Seq<char>) {
    ("❤ "@ + decimal(likes as int), spec_numbered(verb, id as int, Seq::<char>::empty()))
}

/// Writes the button that likes a record.
pub fn like_button(verb: &str, id: i64, likes: usize) -> (out: Button)
    ensures
        face(out) == like_face(verb@, id, likes as nat),
{
    proof {
        reveal_strlit("");
        assert(""@ =~= Seq::<char>::empty());
    }
    let mut text = String::from_str("❤ ");
    text.append(u64_to_string(likes as u64).as_str());
    button(text, numbered(verb, id, ""))
}

/// Whether the first word of a request says that it follows a like.
pub open spec fn follows_like(parts: Seq<Seq<char>>) -> bool {
    parts.len() > 0 && occurs_in(parts[0], "like"@)
}

/// The buttons under a character: the like button, and for an
/// administrator, unless the card follows a like, edit and delete.
pub open spec fn card_buttons(i18n: &I18n, character: Character, admin: bool) -> Seq<Layout> {
    seq![
        Layout::Row(seq![like_face("clike "@, character.id, character.liked_by@.len())]),
    ] + (if admin {
        card_menu(i18n, "char"@, character.id)
    } else {
        Seq::<Layout>::empty()
    })
}

/// Writes the buttons under a character that was asked for with the words
/// `parts`; `is_sudo` says whether an administrator asked.
pub fn write_card_buttons(
    i18n: &I18n,
    character: &Character,
    parts: &Vec<String>,
    is_sudo: bool,
) -> (out: Vec<Block>)
    ensures
        layouts(out@) == card_buttons(
            i18n,
            *character,
            is_sudo && !follows_like(views(parts@)),
        ),
{
    let is_like = parts.len() > 0 && contains_text(parts[0].as_str(), "like");
    let mut out: Vec<Block> = Vec::new();
    out.push(single(like_button("clike ", character.id, character.liked_by.len())));
    let ghost first = layouts(out@);
    if is_sudo && !is_like {
        let mut admin = write_card_menu(i18n, "char", character.id);
        let ghost rest = layouts(admin@);
        out.append(&mut admin);
        assert(layouts(out@) =~= first + rest);
    } else {
        assert(layouts(out@) =~= first + Seq::<Layout>::empty());
    }
    out
}

/// `likes` without `id`.
pub open spec fn without(likes: Seq<i64>, id: i64) -> Seq<i64>
    decreases likes.len(),
{
    if likes.len() == 0 {
        Seq::<i64>::empty()
    } else if likes.last() == id {
        without(likes.drop_last(), id)
    } else {
        without(likes.drop_last(), id).push(likes.last())
    }
}

/// What is left of `likes` holds `id` no more.
pub proof fn lemma_without_removes(likes: Seq<i64>, id: i64)
    ensures
        !without(likes, id).contains(id),
        forall|other: i64|
            other != id ==> without(likes, id).contains(other) == likes.contains(other),
    decreases likes.len(),
{
    if likes.len() > 0 {
        let before = likes.drop_last();
        lemma_without_removes(before, id);
        let rest = without(before, id);
        assert forall|other: i64| other != id implies without(likes, id).contains(other)
            == likes.contains(other) by {
            if likes.contains(other) {
                let k = choose|k: int| 0 <= k < likes.len() && likes[k] == other;
                if k < before.len() {
                    assert(before[k] == other);
                    assert(before.contains(other));
                    assert(without(before, id).contains(other) == before.contains(other));
                    assert(rest.contains(other));
                    let j = choose|j: int| 0 <= j < rest.len() && rest[j] == other;
                    if likes.last() != id {
                        assert(rest.push(likes.last())[j] == other);
                    }
                } else {
                    assert(likes.last() == other);
                    assert(rest.push(other)[rest.len() as int] == other);
                }
            }
            if without(likes, id).contains(other) {
                let j = choose|j: int|
                    0 <= j < without(likes, id).len() && without(likes, id)[j] == other;
                if likes.last() != id && j == rest.len() {
                    assert(likes[likes.len() - 1] == other);
                } else {
                    assert(rest[j] == other);
                    assert(rest.contains(other));
                    assert(without(before, id).contains(other) == before.contains(other));
                    assert(before.contains(other));
                    let k = choose|k: int| 0 <= k < before.len() && before[k] == other;
                    assert(likes[k] == other);
                }
            }
        }
        if likes.last() != id {
            assert forall|j: int| 0 <= j < rest.push(likes.last()).len() implies rest.push(
                likes.last(),
            )[j] != id by {
                if j < rest.len() {
                    assert(rest[j] == rest.push(likes.last())[j]);
                    assert(!rest.contains(id));
                }
            }
        }
    }
}

/// Likes a record for `sender_id`, or takes the like back where the
/// sender likes it already. Says whether the sender likes it now.
pub fn toggle_like(liked_by: &mut Vec<i64>, sender_id: i64) -> (liked: bool)
    ensures
        liked == !old(liked_by)@.contains(sender_id),
        final(liked_by)@ == if liked {
            old(liked_by)@.push(sender_id)
        } else {
            without(old(liked_by)@, sender_id)
        },
        final(liked_by)@.contains(sender_id) == liked,
{
    let mut found = false;
    let mut kept: Vec<i64> = Vec::new();
    let mut i: usize = 0;
    assert(liked_by@.take(0) =~= Seq::<i64>::empty());
    while i < liked_by.len()
        invariant
            i <= liked_by@.len(),
            found == liked_by@.take(i as int).contains(sender_id),
            kept@ == without(liked_by@.take(i as int), sender_id),
        decreases liked_by.len() - i,
    {
        let ghost before = liked_by@.take(i as int);
        let ghost after = liked_by@.take(i + 1);
        assert(after.drop_last() =~= before);
        assert(after.last() == liked_by@[i as int]);
        if liked_by[i] == sender_id {
            found = true;
            assert(after[i as int] == sender_id);
        } else {
            kept.push(liked_by[i]);
            proof {
                if before.contains(sender_id) {
                    let k = choose|k: int| 0 <= k < before.len() && before[k] == sender_id;
                    assert(after[k] == sender_id);
                }
                if after.contains(sender_id) {
                    let k = choose|k: int| 0 <= k < after.len() && after[k] == sender_id;
                    assert(before[k] == sender_id);
                }
            }
        }
        i = i + 1;
    }
    assert(liked_by@.take(liked_by@.len() as int) =~= liked_by@);
    if found {
        proof {
            lemma_without_removes(liked_by@, sender_id);
        }
        *liked_by = kept;
        false
    } else {
        liked_by.push(sender_id);
        assert(liked_by@.last() == sender_id);
        true
    }
}

/// A record whose file the platform refuses goes on without it: the image
/// is dropped, so that the next upload starts afresh.
pub fn drop_image(character: &mut Character)
    ensures
        *final(character) == (Character { image: None, ..*old(character) }),
{
    character.image = None;
}

/// Whether the reason why the platform refused a message is that the file
/// that came with it is broken.
pub fn is_broken_file(reason: &str) -> (out: bool)
    ensures
        out == (occurs_in(reason@, "FILE_PARTS_MISSING"@) || occurs_in(
            reason@,
            "FILE_PARTS_INVALID"@,
        )),
{
    contains_text(reason, "FILE_PARTS_MISSING") || contains_text(reason, "FILE_PARTS_INVALID")
}

// ---------------------------------------------------------------------------
// Searching
// ---------------------------------------------------------------------------

/// What a request to search comes to.
#[derive(Clone, Copy, Debug, PartialEq, Eq, Structural)]
pub enum Search {
    /// There is no request at all.
    Ignore,
    /// The bare command: say that it takes a name.
    Usage,
    /// The command and the word `s` alone: say that a name must follow.
    UsageAfterS,
    /// Search for what `search_text` gives.
    Query,
}

/// The words of a request to search, with the word `s` put behind a
/// command that has the short form `marker` in it.
pub open spec fn search_words(parts: Seq<Seq<char>>, marker: Seq<char>) -> Seq<Seq<char>> {
    if parts.len() > 1 && occurs_in(parts[0], marker) {
        parts.insert(1, "s"@)
    } else {
        parts
    }
}

/// What the words of a request to search come to.
pub open spec fn spec_search(parts: Seq<Seq<char>>, marker: Seq<char>) -> Search {
    if parts.len() == 0 {
        Search::Ignore
    } else if parts.len() == 1 {
        Search::Usage
    } else if search_words(parts, marker).len() <= 2 {
        Search::UsageAfterS
    } else {
        Search::Query
    }
}

/// What is searched for: the words behind the command and the `s`, with
/// one space between them.
pub open spec fn search_text(parts: Seq<Seq<char>>, marker: Seq<char>) -> Seq<char> {
    joined(search_words(parts, marker).skip(2), " "@)
}

/// Reads a request to search, split into words. `marker` is the short
/// form of the command that searches without the word `s`, such as `cs`.
/// Returns what the request comes to and, for a query, what is searched
/// for.
pub fn search(parts: &Vec<String>, marker: &str) -> (out: (Search, String))
    ensures
        out.0 == spec_search(views(parts@), marker@),
        out.1@ == if out.0 == Search::Query {
            search_text(views(parts@), marker@)
        } else {
            Seq::<char>::empty()
        },
{
    if parts.len() == 0 {
        return (Search::Ignore, String::new());
    }
    if parts.len() == 1 {
        return (Search::Usage, String::new());
    }
    let ghost all = views(parts@);
    if contains_text(parts[0].as_str(), marker) {
        // The word `s` takes the second place: the name starts at the old
        // second word.
        let name = join_from(parts, 1, " ");
        assert(all.insert(1, "s"@).skip(2) =~= all.skip(1));
        (Search::Query, name)
    } else if parts.len() <= 2 {
        (Search::UsageAfterS, String::new())
    } else {
        (Search::Query, join_from(parts, 2, " "))
    }
}

/// The text under `key` with what was searched for filled in.
pub open spec fn spec_about_search(i18n: &I18n, key: Seq<char>, query: Seq<char>) -> Seq<char> {
    replaced(i18n.spec_get(key), "{search}"@, query)
}

/// Writes the text under `key` with what was searched for filled in:
/// `search_results` heads the results, `no_results` says that there are
/// none.
pub fn about_search(i18n: &I18n, key: &str, query: &str) -> (out: String)
    ensures
        out@ == spec_about_search(i18n, key@, query@),
{
    replace(i18n.get(key).as_str(), "{search}", query)
}

/// The answer to a search for characters: the results under a heading, or
/// the notice that there are none.
pub open spec fn spec_results(i18n: &I18n, query: Seq<char>, found: Seq<Character>) -> Seq<char> {
    if found.len() == 0 {
        spec_about_search(i18n, "no_results"@, query)
    } else {
        spec_about_search(i18n, "search_results"@, query) + "\n\n"@
            + crate::routers::admin::series::lines(
            found,
            crate::routers::admin::series::widest_id(found),
        )
    }
}

/// Writes the answer to a search for characters.
pub fn results(i18n: &I18n, query: &str, found: &Vec<Character>) -> (out: String)
    ensures
        out@ == spec_results(i18n, query@, found@),
{
    if found.len() == 0 {
        about_search(i18n, "no_results", query)
    } else {
        let mut out = about_search(i18n, "search_results", query);
        out.append("\n\n");
        let width = crate::routers::admin::series::column_width(found);
        crate::routers::admin::series::append_lines(&mut out, found, width);
        out
    }
}

} // verus!
