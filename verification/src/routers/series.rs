//! Looking at a series and at its characters, liking it, and searching for
//! series.

use crate::database::models::{Character, Series};
use crate::modules::i18n::I18n;
use crate::routers::admin::menus::{card_menu, write_card_menu};
use crate::routers::admin::series::{
    append_lines, append_page_mark, column_width, lines, page_mark, pages, spec_pages, widest_id,
    CHARACTERS_PER_PAGE,
};
use crate::routers::character::{
    about_search, follows_like, like_button, like_face, spec_about_search,
};
use crate::routers::keyboard::{
    faces, layouts, numbered, single, spec_numbered, Block, Button, Layout,
};
use crate::routers::pages::{pager, write_pager};
use crate::text::{
    contains_text, decimal, decimal_width, i64_to_string, i64_value, occurs_in, parse_i64,
    repeat_char, repeated, same_text, views,
};
use crate::utils::{
    character_partial_info, construct_character_partial_info, construct_series_info,
    media_type_symbol, series_info, spec_media_type_symbol,
};
use vstd::prelude::*;
use vstd::string::*;

verus! {

/// What a request to see a series comes to.
#[derive(Clone, Copy, Debug, PartialEq, Eq, Structural)]
pub enum See {
    /// There is no request at all.
    Ignore,
    /// The bare command of an administrator: offer to add a series or to
    /// list them all.
    Menu,
    /// The bare command of anybody else: say how the command is used.
    Usage,
    /// The request is for the characters of a series, one by one.
    Characters,
    /// The request is a search.
    Search,
    /// Show the series with this number.
    ById(i64),
    /// Show the series whose title the words behind the command give.
    ByTitle,
}

/// What the words of a request to see a series come to, by whether an
/// administrator sent it. A second word `i`, `c` or `p` asks for the
/// characters; any other second word with an `s` in it makes the request a
/// search; else the second word is the number of the series, or the words
/// behind the command are its title.
pub open spec fn spec_see(parts: Seq<Seq<char>>, is_sudo: bool) -> See {
    if parts.len() == 0 {
        See::Ignore
    } else if parts.len() == 1 {
        if is_sudo {
            See::Menu
        } else {
            See::Usage
        }
    } else if parts[1] == "i"@ || parts[1] == "c"@ || parts[1] == "p"@ {
        See::Characters
    } else if occurs_in(parts[1], "s"@) {
        See::Search
    } else {
        match i64_value(parts[1]) {
            Some(id) => See::ById(id),
            None => See::ByTitle,
        }
    }
}

/// Reads a request to see a series, split into words.
pub fn see(parts: &Vec<String>, is_sudo: bool) -> (out: See)
    ensures
        out == spec_see(views(parts@), is_sudo),
{
    if parts.len() == 0 {
        return See::Ignore;
    }
    if parts.len() == 1 {
        return if is_sudo {
            See::Menu
        } else {
            See::Usage
        };
    }
    let word = parts[1].as_str();
    if same_text(word, "i") || same_text(word, "c") || same_text(word, "p") {
        See::Characters
    } else if contains_text(word, "s") {
        See::Search
    } else {
        match parse_i64(word) {
            Some(id) => See::ById(id),
            None => See::ByTitle,
        }
    }
}

/// The payload that leads to a page of series `id` for user `sender_id`,
/// up to the number of the page.
pub open spec fn page_head(id: i64, sender_id: i64) -> Seq<char> {
    spec_numbered(spec_numbered("series "@, id as int, " "@), sender_id as int, " "@)
}

/// The payload that leads to a character of series `id` for user
/// `sender_id`, up to the place of the character.
pub open spec fn character_head(id: i64, sender_id: i64) -> Seq<char> {
    spec_numbered(spec_numbered("series i "@, id as int, " "@), sender_id as int, " "@)
}

fn write_head(start: &str, id: i64, sender_id: i64) -> (out: String)
    ensures
        out@ == spec_numbered(spec_numbered(start@, id as int, " "@), sender_id as int, " "@),
{
    let head = numbered(start, id, " ");
    numbered(head.as_str(), sender_id, " ")
}

/// The buttons under page `index` of a series: the page turners, the like
/// button, and for an administrator edit and delete.
pub open spec fn page_buttons(
    i18n: &I18n,
    series: Series,
    sender_id: i64,
    index: int,
    count: nat,
    admin: bool,
) -> Seq<Layout> {
    seq![
        Layout::Row(
            pager(
                page_head(series.id, sender_id),
                index,
                spec_pages(count, CHARACTERS_PER_PAGE as nat) as int,
                false,
            ),
        ),
        Layout::Row(seq![like_face("slike "@, series.id, series.liked_by@.len())]),
    ] + (if admin {
        card_menu(i18n, "series"@, series.id)
    } else {
        Seq::<Layout>::empty()
    })
}

/// Writes the buttons under page `index` of a series that has `count`
/// characters, asked for with the words `parts`; `is_sudo` says whether an
/// administrator asked.
pub fn write_page_buttons(
    i18n: &I18n,
    series: &Series,
    sender_id: i64,
    index: usize,
    count: usize,
    parts: &Vec<String>,
    is_sudo: bool,
) -> (out: Vec<Block>)
    ensures
        layouts(out@) == page_buttons(
            i18n,
            *series,
            sender_id,
            index as int,
            count as nat,
            is_sudo && !follows_like(views(parts@)),
        ),
{
    let is_like = parts.len() > 0 && contains_text(parts[0].as_str(), "like");
    let head = write_head("series ", series.id, sender_id);
    let turners = write_pager(head.as_str(), index, pages(count, CHARACTERS_PER_PAGE), false);
    let mut out: Vec<Block> = Vec::new();
    out.push(Block::Row(turners));
    out.push(single(like_button("slike ", series.id, series.liked_by.len())));
    let ghost first = layouts(out@);
    assert(first =~= seq![
        Layout::Row(
            pager(
                page_head(series.id, sender_id),
                index as int,
                spec_pages(count as nat, CHARACTERS_PER_PAGE as nat) as int,
                false,
            ),
        ),
        Layout::Row(seq![like_face("slike "@, series.id, series.liked_by@.len())]),
    ]);
    if is_sudo && !is_like {
        let mut admin = write_card_menu(i18n, "series", series.id);
        let ghost rest = layouts(admin@);
        out.append(&mut admin);
        assert(layouts(out@) =~= first + rest);
    } else {
        assert(layouts(out@) =~= first + Seq::<Layout>::empty());
    }
    out
}

/// The text of page `index` of a series: the head of the series and the
/// lines of the characters of the page, where there are any, and the mark
/// of the page.
pub open spec fn spec_page_text(series: Series, characters: Seq<Character>, index: int, count: nat) -> Seq<
    char,
> {
    (if characters.len() > 0 {
        series_info(series, count, false) + lines(characters, widest_id(characters))
    } else {
        Seq::<char>::empty()
    }) + "\n"@ + page_mark(index, spec_pages(count, CHARACTERS_PER_PAGE as nat) as int)
}

/// Writes the text of page `index` of a series that has `count`
/// characters; `characters` are those of the page.
pub fn page_text(series: &Series, characters: &Vec<Character>, index: usize, count: usize) -> (out:
    String)
    ensures
        out@ == spec_page_text(*series, characters@, index as int, count as nat),
{
    let mut out = String::new();
    if characters.len() > 0 {
        out = construct_series_info(series, count, false);
        let width = column_width(characters);
        append_lines(&mut out, characters, width);
    }
    out.append("\n");
    append_page_mark(&mut out, index, pages(count, CHARACTERS_PER_PAGE));
    out
}

// ---------------------------------------------------------------------------
// The characters of a series, one by one
// ---------------------------------------------------------------------------

/// What a request to see the characters of a series comes to.
#[derive(Clone, Copy, Debug, PartialEq, Eq, Structural)]
pub enum SeeCharacters {
    /// There is no request at all.
    Ignore,
    /// The bare command: say that it takes a title or a number.
    Usage,
    /// The command and the word `i` alone: say that a title or a number
    /// must follow.
    UsageAfterI,
    /// Show the characters of the series with this number.
    ById(i64),
    /// Show the characters of the series whose title the words from the
    /// third on give.
    ByTitle,
}

/// The words of a request to see the characters of a series, with the word
/// `i` put behind a command that has one of the short forms `si` and `oi`
/// in it.
pub open spec fn characters_words(parts: Seq<Seq<char>>) -> Seq<Seq<char>> {
    if parts.len() > 1 && (occurs_in(parts[0], "si"@) || occurs_in(parts[0], "oi"@)) {
        parts.insert(1, "i"@)
    } else {
        parts
    }
}

/// What the words of a request to see the characters of a series come to.
pub open spec fn spec_see_characters(parts: Seq<Seq<char>>) -> SeeCharacters {
    let words = characters_words(parts);
    if parts.len() == 0 {
        SeeCharacters::Ignore
    } else if parts.len() == 1 {
        SeeCharacters::Usage
    } else if words.len() <= 2 {
        SeeCharacters::UsageAfterI
    } else {
        match i64_value(words[2]) {
            Some(id) => SeeCharacters::ById(id),
            None => SeeCharacters::ByTitle,
        }
    }
}

/// Reads a request to see the characters of a series, split into words.
/// Returns the words with the `i` in its place, and what they come to.
pub fn see_characters(parts: Vec<String>) -> (out: (Vec<String>, SeeCharacters))
    ensures
        views(out.0@) == characters_words(views(parts@)),
        out.1 == spec_see_characters(views(parts@)),
{
    let mut words = parts;
    if words.len() == 0 {
        return (words, SeeCharacters::Ignore);
    }
    if words.len() == 1 {
        return (words, SeeCharacters::Usage);
    }
    let ghost before = views(words@);
    if contains_text(words[0].as_str(), "si") || contains_text(words[0].as_str(), "oi") {
        words.insert(1, String::from_str("i"));
        assert(views(words@) =~= before.insert(1, "i"@));
    }
    if words.len() <= 2 {
        return (words, SeeCharacters::UsageAfterI);
    }
    let what = match parse_i64(words[2].as_str()) {
        Some(id) => SeeCharacters::ById(id),
        None => SeeCharacters::ByTitle,
    };
    (words, what)
}

/// The text under character `index` of the `count` characters of a
/// series: the line of the character with its artist, the head of the
/// series, and the mark of the place. Without a character, the mark alone.
pub open spec fn spec_character_text(
    series: Series,
    character: Option<Character>,
    index: int,
    count: int,
) -> Seq<char> {
    (match character {
        Some(character) => character_partial_info(character, true, 0) + series_info(
            series,
            0,
            false,
        ),
        None => Seq::<char>::empty(),
    }) + page_mark(index, count)
}

/// Writes the text under character `index` of the `count` characters of a
/// series.
pub fn character_text(
    series: &Series,
    character: Option<&Character>,
    index: usize,
    count: usize,
) -> (out: String)
    ensures
        out@ == spec_character_text(
            *series,
            match character {
                Some(character) => Some(*character),
                None => None,
            },
            index as int,
            count as int,
        ),
{
    let mut out = String::new();
    match character {
        Some(character) => {
            out = construct_character_partial_info(character, true, 0);
            out.append(construct_series_info(series, 0, false).as_str());
        },
        None => {},
    }
    append_page_mark(&mut out, index, count);
    out
}

/// Writes the buttons under character `index` of the `count` characters of
/// a series: to the first, back, on, and to the last.
pub fn write_character_buttons(id: i64, sender_id: i64, index: usize, count: usize) -> (out: Vec<
    Button,
>)
    ensures
        faces(out@) == pager(character_head(id, sender_id), index as int, count as int, true),
{
    let head = write_head("series i ", id, sender_id);
    write_pager(head.as_str(), index, count, true)
}

// ---------------------------------------------------------------------------
// Searching
// ---------------------------------------------------------------------------

/// The line of a series among the results of a search, its number in a
/// column `space_count` wide.
pub open spec fn result_line(series: Series, space_count: nat) -> Seq<char> {
    let width = decimal(series.id as int).len();
    "\n"@ + spec_media_type_symbol(series.media_type) + " <code>"@ + (if space_count > width {
        repeated(' ', (space_count - width) as nat)
    } else {
        Seq::<char>::empty()
    }) + "</code><code>"@ + decimal(series.id as int) + "</code>. <b>"@ + series.title@
        + "</b>"@
}

/// The lines of `found`, one after the other.
pub open spec fn result_lines(found: Seq<Series>, space_count: nat) -> Seq<char>
    decreases found.len(),
{
    if found.len() == 0 {
        Seq::<char>::empty()
    } else {
        result_lines(found.drop_last(), space_count) + result_line(found.last(), space_count)
    }
}

/// The widest number among `found`, in characters; 0 for none.
pub open spec fn widest_series_id(found: Seq<Series>) -> nat
    decreases found.len(),
{
    if found.len() == 0 {
        0
    } else {
        let before = widest_series_id(found.drop_last());
        let width = decimal(found.last().id as int).len();
        if width > before {
            width
        } else {
            before
        }
    }
}

fn series_column_width(found: &Vec<Series>) -> (out: usize)
    ensures
        out == widest_series_id(found@),
{
    let mut out: usize = 0;
    let mut i: usize = 0;
    assert(found@.take(0) =~= Seq::<Series>::empty());
    while i < found.len()
        invariant
            i <= found@.len(),
            out == widest_series_id(found@.take(i as int)),
        decreases found.len() - i,
    {
        let ghost after = found@.take(i + 1);
        assert(after.drop_last() =~= found@.take(i as int));
        assert(after.last() == found@[i as int]);
        let width = decimal_width(found[i].id);
        if width > out {
            out = width;
        }
        i = i + 1;
    }
    assert(found@.take(found@.len() as int) =~= found@);
    out
}

/// The answer to a search for series: a heading, then a line for each
/// series that was found.
pub open spec fn spec_results(i18n: &I18n, query: Seq<char>, found: Seq<Series>) -> Seq<char> {
    spec_about_search(i18n, "search_results"@, query) + "\n"@ + result_lines(
        found,
        widest_series_id(found),
    )
}

fn write_result_line(series: &Series, space_count: usize) -> (out: String)
    ensures
        out@ == result_line(*series, space_count as nat),
{
    let number = i64_to_string(series.id);
    let width = number.as_str().unicode_len();
    let mut out = String::from_str("\n");
    out.append(media_type_symbol(&series.media_type));
    out.append(" <code>");
    if space_count > width {
        out.append(repeat_char(' ', space_count - width).as_str());
    } else {
        assert(out@ + Seq::<char>::empty() =~= out@);
    }
    out.append("</code><code>");
    out.append(number.as_str());
    out.append("</code>. <b>");
    out.append(series.title.as_str());
    out.append("</b>");
    out
}

/// Writes the answer to a search for series.
pub fn results(i18n: &I18n, query: &str, found: &Vec<Series>) -> (out: String)
    ensures
        out@ == spec_results(i18n, query@, found@),
{
    let mut out = about_search(i18n, "search_results", query);
    out.append("\n");
    let space_count = series_column_width(found);
    let ghost head = out@;
    let mut i: usize = 0;
    assert(found@.take(0) =~= Seq::<Series>::empty());
    assert(head + Seq::<char>::empty() =~= head);
    while i < found.len()
        invariant
            i <= found@.len(),
            out@ == head + result_lines(found@.take(i as int), space_count as nat),
        decreases found.len() - i,
    {
        let ghost before = found@.take(i as int);
        let ghost after = found@.take(i + 1);
        assert(after.drop_last() =~= before);
        assert(after.last() == found@[i as int]);
        let line = write_result_line(&found[i], space_count);
        out.append(line.as_str());
        assert(out@ =~= head + (result_lines(before, space_count as nat) + line@));
        i = i + 1;
    }
    assert(found@.take(found@.len() as int) =~= found@);
    out
}

} // verus!
