//! Adding, editing and deleting series, and moving characters into and
//! out of them.
//!
//! The dialog works as the one for characters does: a button sends a
//! payload of words such as `series edit 3 characters 2 remove 41`, the
//! functions here read it, say what the bot does first, and apply the
//! answer to the record.

use crate::database::models::{Character, Media, Series};
use crate::modules::i18n::I18n;
use crate::routers::admin::aliases::{
    add_alias, delete_alias, has_room, rename_alias, spec_check_alias, spec_renamed, AliasCheck,
    Renamed, MAX_ALIASES,
};
use crate::routers::admin::character::{index_at, parse_index, Answered};
use crate::routers::admin::menus::{
    aliases_menu, artist_menu, confirm_alias_menu, delete_data, edit_data, fields_menu, labelled,
    write_aliases_menu, write_artist_menu, write_confirm_alias_menu, write_delete_data,
    write_edit_data, write_fields_menu,
};
use crate::routers::admin::notices::{confirm_delete, spec_confirm_delete, Field};
use crate::routers::keyboard::{
    button, face, faces, grid, indexed, layouts, numbered, pair, single, spec_numbered, Block,
    Button, Layout,
};
use crate::text::{
    decimal, decimal_width, has_char, i64_to_string, i64_value, join_from, joined, parse_i64,
    pieces, replace, replaced, same_text, split_on, split_whitespace, trim, trimmed,
    u64_to_string, views, words,
};
use crate::utils::{
    character_partial_info, construct_character_partial_info, construct_series_info, series_info,
};
use vstd::prelude::*;
use vstd::string::*;

verus! {

/// The number of characters on a page of the list of a series.
pub const CHARACTERS_PER_PAGE: usize = 15;

/// The seconds that an administrator has to send the characters to add.
pub const CHARACTERS_TIMEOUT: u64 = 20;

/// What a press of a button in the editing dialog asks for.
#[derive(Clone, Copy, Debug, PartialEq, Eq, Structural)]
pub enum SeriesEdit {
    /// The menu of fields.
    Main,
    Title,
    /// The menu of what can be edited of the artist.
    Artist,
    ArtistName,
    ArtistLink,
    /// The list of aliases.
    Aliases,
    AliasAdd,
    AliasEdit(usize),
    AliasDelete(usize),
    AliasDeleteConfirmed(usize),
    AliasRename(usize),
    Banner,
    MediaType,
    /// A page of the characters of the series.
    Characters { page: usize },
    /// Characters are to be added to the series.
    CharactersAdd,
    /// The characters of a page, to pick the one to remove.
    RemoveMenu { page: usize },
    /// A character is to be removed from the series; `confirmed` says
    /// whether the administrator has confirmed it.
    Remove { page: usize, character_id: i64, confirmed: bool },
}

/// What the words of a payload ask for, where the fourth word is
/// `aliases`.
pub open spec fn spec_alias_edit(parts: Seq<Seq<char>>) -> SeriesEdit {
    if parts.len() < 5 {
        SeriesEdit::Aliases
    } else if parts[4] == "add"@ {
        SeriesEdit::AliasAdd
    } else if parts[4] == "edit"@ {
        match index_at(parts, 5) {
            Some(i) => SeriesEdit::AliasEdit(i),
            None => SeriesEdit::Aliases,
        }
    } else if parts[4] == "delete"@ {
        match index_at(parts, 5) {
            Some(i) => if parts.len() == 7 && parts[6] == "confirm"@ {
                SeriesEdit::AliasDeleteConfirmed(i)
            } else {
                SeriesEdit::AliasDelete(i)
            },
            None => SeriesEdit::Aliases,
        }
    } else if parts[4] == "rename"@ {
        match index_at(parts, 5) {
            Some(i) => SeriesEdit::AliasRename(i),
            None => SeriesEdit::Aliases,
        }
    } else {
        SeriesEdit::Aliases
    }
}

/// What the words of a payload ask for, where the fourth word is
/// `characters`: the fifth is the page, or `add`; behind a page, `remove`
/// may follow, then the number of a character, then `confirm`.
pub open spec fn spec_characters_edit(parts: Seq<Seq<char>>) -> SeriesEdit {
    if parts.len() < 5 {
        SeriesEdit::Characters { page: 1 }
    } else if index_at(parts, 4) is None && parts[4] == "add"@ {
        SeriesEdit::CharactersAdd
    } else {
        let page = match index_at(parts, 4) {
            Some(p) => p,
            None => 1usize,
        };
        if parts.len() >= 6 && parts[5] == "remove"@ {
            if parts.len() >= 7 && i64_value(parts[6]) is Some {
                SeriesEdit::Remove {
                    page,
                    character_id: i64_value(parts[6])->0,
                    confirmed: parts.len() >= 8 && parts[7] == "confirm"@,
                }
            } else {
                SeriesEdit::RemoveMenu { page }
            }
        } else {
            SeriesEdit::Characters { page }
        }
    }
}

/// What a payload asks for, word by word: the third word is the number of
/// the series, the words behind it say what to edit. A payload of fewer
/// than three words, or without a number in the third place, asks for
/// nothing; words that are not understood ask for the menu of fields.
pub open spec fn spec_parse(parts: Seq<Seq<char>>) -> Option<(i64, SeriesEdit)> {
    if parts.len() < 3 {
        None
    } else {
        match i64_value(parts[2]) {
            None => None,
            Some(id) => Some(
                (
                    id,
                    if parts.len() == 3 {
                        SeriesEdit::Main
                    } else if parts[3] == "title"@ {
                        SeriesEdit::Title
                    } else if parts[3] == "artist"@ {
                        if parts.len() != 5 {
                            SeriesEdit::Artist
                        } else if parts[4] == "name"@ {
                            SeriesEdit::ArtistName
                        } else if parts[4] == "link"@ {
                            SeriesEdit::ArtistLink
                        } else {
                            SeriesEdit::Main
                        }
                    } else if parts[3] == "aliases"@ {
                        spec_alias_edit(parts)
                    } else if parts[3] == "banner"@ {
                        SeriesEdit::Banner
                    } else if parts[3] == "media_type"@ {
                        SeriesEdit::MediaType
                    } else if parts[3] == "characters"@ {
                        spec_characters_edit(parts)
                    } else {
                        SeriesEdit::Main
                    },
                ),
            ),
        }
    }
}

fn index_in(parts: &Vec<String>, at: usize) -> (out: Option<usize>)
    ensures
        out == index_at(views(parts@), at as int),
{
    if at < parts.len() {
        parse_index(parts[at].as_str())
    } else {
        None
    }
}

fn parse_alias_edit(parts: &Vec<String>) -> (out: SeriesEdit)
    ensures
        out == spec_alias_edit(views(parts@)),
{
    if parts.len() < 5 {
        return SeriesEdit::Aliases;
    }
    let word = parts[4].as_str();
    if same_text(word, "add") {
        SeriesEdit::AliasAdd
    } else if same_text(word, "edit") {
        match index_in(parts, 5) {
            Some(i) => SeriesEdit::AliasEdit(i),
            None => SeriesEdit::Aliases,
        }
    } else if same_text(word, "delete") {
        match index_in(parts, 5) {
            Some(i) => {
                if parts.len() == 7 && same_text(parts[6].as_str(), "confirm") {
                    SeriesEdit::AliasDeleteConfirmed(i)
                } else {
                    SeriesEdit::AliasDelete(i)
                }
            },
            None => SeriesEdit::Aliases,
        }
    } else if same_text(word, "rename") {
        match index_in(parts, 5) {
            Some(i) => SeriesEdit::AliasRename(i),
            None => SeriesEdit::Aliases,
        }
    } else {
        SeriesEdit::Aliases
    }
}

fn parse_characters_edit(parts: &Vec<String>) -> (out: SeriesEdit)
    ensures
        out == spec_characters_edit(views(parts@)),
{
    if parts.len() < 5 {
        return SeriesEdit::Characters { page: 1 };
    }
    let page = match index_in(parts, 4) {
        Some(p) => p,
        None => {
            if same_text(parts[4].as_str(), "add") {
                return SeriesEdit::CharactersAdd;
            }
            1
        },
    };
    if parts.len() >= 6 && same_text(parts[5].as_str(), "remove") {
        if parts.len() >= 7 {
            match parse_i64(parts[6].as_str()) {
                Some(character_id) => {
                    let confirmed = parts.len() >= 8 && same_text(parts[7].as_str(), "confirm");
                    return SeriesEdit::Remove { page, character_id, confirmed };
                },
                None => {},
            }
        }
        SeriesEdit::RemoveMenu { page }
    } else {
        SeriesEdit::Characters { page }
    }
}

/// Reads the payload of a button of the editing dialog, split into words.
pub fn parse_edit(parts: &Vec<String>) -> (out: Option<(i64, SeriesEdit)>)
    ensures
        out == spec_parse(views(parts@)),
{
    if parts.len() < 3 {
        return None;
    }
    let id = match parse_i64(parts[2].as_str()) {
        Some(id) => id,
        None => {
            return None;
        },
    };
    if parts.len() == 3 {
        return Some((id, SeriesEdit::Main));
    }
    let word = parts[3].as_str();
    let edit = if same_text(word, "title") {
        SeriesEdit::Title
    } else if same_text(word, "artist") {
        if parts.len() != 5 {
            SeriesEdit::Artist
        } else if same_text(parts[4].as_str(), "name") {
            SeriesEdit::ArtistName
        } else if same_text(parts[4].as_str(), "link") {
            SeriesEdit::ArtistLink
        } else {
            SeriesEdit::Main
        }
    } else if same_text(word, "aliases") {
        parse_alias_edit(parts)
    } else if same_text(word, "banner") {
        SeriesEdit::Banner
    } else if same_text(word, "media_type") {
        SeriesEdit::MediaType
    } else if same_text(word, "characters") {
        parse_characters_edit(parts)
    } else {
        SeriesEdit::Main
    };
    Some((id, edit))
}

/// A set of buttons of the editing dialog.
#[derive(Clone, Copy, Debug, PartialEq, Eq, Structural)]
pub enum Menu {
    /// The fields that can be edited, and back to the series.
    Main,
    Artist,
    Aliases,
    AliasSelected(usize),
    ConfirmAliasDelete(usize),
    /// The kinds of work.
    MediaType,
    /// A page of the characters, with what can be done about them.
    Characters { page: usize },
    /// The characters of a page, to pick the one to remove.
    RemoveCharacter { page: usize },
    /// Cancel and confirm, under the question whether to remove a
    /// character.
    ConfirmRemove { page: usize, character_id: i64 },
}

/// What the bot does first when a button of the editing dialog was pressed.
#[derive(Clone, Copy, Debug, PartialEq, Eq, Structural)]
pub enum Step {
    /// Show these buttons; nothing more follows.
    Show(Menu),
    /// Ask for this field and wait for the answer.
    Ask(Field),
    /// Ask for the numbers of the characters to add, and wait
    /// `CHARACTERS_TIMEOUT` seconds for them.
    AskCharacters,
    /// Show these buttons and wait for one of them to be pressed. Without
    /// a press in time the menu of fields is shown.
    Choose(Menu),
    /// Say that the series has all the aliases it can have.
    TellMaxAliases,
    /// The record was changed: store it, then show these buttons.
    Store(Menu),
    /// Look the character up and go on with `removal`.
    FindCharacter { page: usize, character_id: i64, confirmed: bool },
}

impl SeriesEdit {
    /// What the bot does first, for a series whose aliases are `aliases`.
    pub open spec fn spec_first_step(self, aliases: Seq<String>) -> Step {
        match self {
            SeriesEdit::Main => Step::Show(Menu::Main),
            SeriesEdit::Title => Step::Ask(Field::Title),
            SeriesEdit::Artist => Step::Show(Menu::Artist),
            SeriesEdit::ArtistName => Step::Ask(Field::ArtistName),
            SeriesEdit::ArtistLink => Step::Ask(Field::ImageLink),
            SeriesEdit::Aliases => Step::Show(Menu::Aliases),
            SeriesEdit::AliasAdd => if aliases.len() >= MAX_ALIASES {
                Step::TellMaxAliases
            } else {
                Step::Ask(Field::Alias)
            },
            SeriesEdit::AliasEdit(i) => Step::Show(Menu::AliasSelected(i)),
            SeriesEdit::AliasDelete(i) => if i < aliases.len() {
                Step::Show(Menu::ConfirmAliasDelete(i))
            } else {
                Step::Show(Menu::Aliases)
            },
            SeriesEdit::AliasDeleteConfirmed(i) => if i < aliases.len() {
                Step::Store(Menu::Aliases)
            } else {
                Step::Show(Menu::Aliases)
            },
            SeriesEdit::AliasRename(_) => Step::Ask(Field::Alias),
            SeriesEdit::Banner => Step::Ask(Field::Banner),
            SeriesEdit::MediaType => Step::Choose(Menu::MediaType),
            SeriesEdit::Characters { page } => Step::Show(Menu::Characters { page }),
            SeriesEdit::CharactersAdd => Step::AskCharacters,
            SeriesEdit::RemoveMenu { page } => Step::Show(Menu::RemoveCharacter { page }),
            SeriesEdit::Remove { page, character_id, confirmed } => Step::FindCharacter {
                page,
                character_id,
                confirmed,
            },
        }
    }

    /// Says what the bot does first. Only the confirmed deletion of an
    /// alias changes the record at this point: it removes the alias.
    pub fn first_step(&self, series: &mut Series) -> (out: Step)
        ensures
            out == self.spec_first_step(old(series).aliases@),
            *final(series) == (Series { aliases: final(series).aliases, ..*old(series) }),
            final(series).aliases@ == match *self {
                SeriesEdit::AliasDeleteConfirmed(i) => if i < old(series).aliases@.len() {
                    old(series).aliases@.remove(i as int)
                } else {
                    old(series).aliases@
                },
                _ => old(series).aliases@,
            },
    {
        match *self {
            SeriesEdit::Main => Step::Show(Menu::Main),
            SeriesEdit::Title => Step::Ask(Field::Title),
            SeriesEdit::Artist => Step::Show(Menu::Artist),
            SeriesEdit::ArtistName => Step::Ask(Field::ArtistName),
            SeriesEdit::ArtistLink => Step::Ask(Field::ImageLink),
            SeriesEdit::Aliases => Step::Show(Menu::Aliases),
            SeriesEdit::AliasAdd => {
                if has_room(&series.aliases) {
                    Step::Ask(Field::Alias)
                } else {
                    Step::TellMaxAliases
                }
            },
            SeriesEdit::AliasEdit(i) => Step::Show(Menu::AliasSelected(i)),
            SeriesEdit::AliasDelete(i) => {
                if i < series.aliases.len() {
                    Step::Show(Menu::ConfirmAliasDelete(i))
                } else {
                    Step::Show(Menu::Aliases)
                }
            },
            SeriesEdit::AliasDeleteConfirmed(i) => {
                if delete_alias(&mut series.aliases, i) {
                    Step::Store(Menu::Aliases)
                } else {
                    Step::Show(Menu::Aliases)
                }
            },
            SeriesEdit::AliasRename(_) => Step::Ask(Field::Alias),
            SeriesEdit::Banner => Step::Ask(Field::Banner),
            SeriesEdit::MediaType => Step::Choose(Menu::MediaType),
            SeriesEdit::Characters { page } => Step::Show(Menu::Characters { page }),
            SeriesEdit::CharactersAdd => Step::AskCharacters,
            SeriesEdit::RemoveMenu { page } => Step::Show(Menu::RemoveCharacter { page }),
            SeriesEdit::Remove { page, character_id, confirmed } => Step::FindCharacter {
                page,
                character_id,
                confirmed,
            },
        }
    }

    /// The buttons that are shown when the request is done with: the list
    /// of aliases after anything about aliases, else the menu of fields.
    pub open spec fn spec_menu_after(self) -> Menu {
        match self {
            SeriesEdit::AliasAdd => Menu::Aliases,
            SeriesEdit::AliasRename(_) => Menu::Aliases,
            SeriesEdit::AliasDeleteConfirmed(_) => Menu::Aliases,
            _ => Menu::Main,
        }
    }

    /// Says which buttons are shown when the request is done with.
    pub fn menu_after(&self) -> (out: Menu)
        ensures
            out == self.spec_menu_after(),
    {
        match self {
            SeriesEdit::AliasAdd => Menu::Aliases,
            SeriesEdit::AliasRename(_) => Menu::Aliases,
            SeriesEdit::AliasDeleteConfirmed(_) => Menu::Aliases,
            _ => Menu::Main,
        }
    }
}

/// What a text answer comes to.
pub open spec fn spec_answered(edit: SeriesEdit, aliases: Seq<String>, text: &str) -> Answered {
    match edit {
        SeriesEdit::Title => Answered::Stored,
        SeriesEdit::ArtistName => Answered::Stored,
        SeriesEdit::ArtistLink => Answered::Stored,
        SeriesEdit::AliasAdd => match spec_check_alias(aliases, text) {
            AliasCheck::Fits => Answered::Stored,
            check => Answered::Unfit(check),
        },
        SeriesEdit::AliasRename(i) => match spec_renamed(aliases, i, text) {
            Renamed::Done => Answered::Stored,
            Renamed::Missing => Answered::Nothing,
            Renamed::Unfit(check) => Answered::Unfit(check),
        },
        _ => Answered::Nothing,
    }
}

/// Applies the text that an administrator sent for the field that `edit`
/// asked for. The title, the artist's name and the link take the text
/// trimmed. An alias must fit the rules for aliases, and is stored
/// trimmed. Every field but the one asked for stays as it was.
pub fn answer_text(edit: SeriesEdit, series: &mut Series, text: &str) -> (out: Answered)
    ensures
        out == spec_answered(edit, old(series).aliases@, text),
        match edit {
            SeriesEdit::Title => *final(series) == (Series {
                title: final(series).title,
                ..*old(series)
            }) && final(series).title@ == trimmed(text@),
            SeriesEdit::ArtistName => *final(series) == (Series {
                artist: final(series).artist,
                ..*old(series)
            }) && final(series).artist@ == trimmed(text@),
            SeriesEdit::ArtistLink => *final(series) == (Series {
                image_link: final(series).image_link,
                ..*old(series)
            }) && final(series).image_link@ == trimmed(text@),
            SeriesEdit::AliasAdd => *final(series) == (Series {
                aliases: final(series).aliases,
                ..*old(series)
            }) && if out == Answered::Stored {
                final(series).aliases@.len() == old(series).aliases@.len() + 1 && final(series).aliases@.last()@ == trimmed(text@) && final(series).aliases@.drop_last() == old(series).aliases@
            } else {
                final(series).aliases@ == old(series).aliases@
            },
            SeriesEdit::AliasRename(i) => *final(series) == (Series {
                aliases: final(series).aliases,
                ..*old(series)
            }) && final(series).aliases@.len() == old(series).aliases@.len() && if out
                == Answered::Stored {
                final(series).aliases@[i as int]@ == trimmed(text@) && forall|k: int|
                    0 <= k < old(series).aliases@.len() && k != i ==> #[trigger] final(series).aliases@[k] == old(series).aliases@[k]
            } else {
                final(series).aliases@ == old(series).aliases@
            },
            _ => *final(series) == *old(series),
        },
{
    match edit {
        SeriesEdit::Title => {
            series.title = trim(text);
            Answered::Stored
        },
        SeriesEdit::ArtistName => {
            series.artist = trim(text);
            Answered::Stored
        },
        SeriesEdit::ArtistLink => {
            series.image_link = trim(text);
            Answered::Stored
        },
        SeriesEdit::AliasAdd => match add_alias(&mut series.aliases, text) {
            AliasCheck::Fits => Answered::Stored,
            check => Answered::Unfit(check),
        },
        SeriesEdit::AliasRename(i) => match rename_alias(&mut series.aliases, i, text) {
            Renamed::Done => Answered::Stored,
            Renamed::Missing => Answered::Nothing,
            Renamed::Unfit(check) => Answered::Unfit(check),
        },
        _ => Answered::Nothing,
    }
}

/// Applies the photo that an administrator sent: it becomes the banner of
/// the series.
pub fn answer_banner(series: &mut Series, bytes: Vec<u8>)
    ensures
        *final(series) == (Series { banner: Some(bytes), ..*old(series) }),
{
    series.banner = Some(bytes);
}

/// Applies the kind of work that an administrator chose: the series is of
/// the kind that the payload names, and of an unknown kind where it names
/// none.
pub fn answer_media_type(series: &mut Series, payload: &str)
    ensures
        *final(series) == (Series {
            media_type: Media::spec_from_key(payload@),
            ..*old(series)
        }),
{
    series.media_type = Media::from_key(payload);
}

// ---------------------------------------------------------------------------
// The characters of a series
// ---------------------------------------------------------------------------

/// The number of pages that `count` things fill, `per_page` to a page.
pub open spec fn spec_pages(count: nat, per_page: nat) -> nat {
    if count % per_page == 0 {
        count / per_page
    } else {
        count / per_page + 1
    }
}

/// Counts the pages that `count` things fill, `per_page` to a page: the
/// least number of pages that hold them all.
pub fn pages(count: usize, per_page: usize) -> (out: usize)
    requires
        per_page > 0,
    ensures
        out == spec_pages(count as nat, per_page as nat),
        (out - 1) * per_page < count <= out * per_page || (count == 0 && out == 0),
{
    let full = count / per_page;
    assert(count % per_page != 0 ==> count / per_page < count) by (nonlinear_arith)
        requires
            per_page > 0,
    ;
    let out = if count % per_page == 0 {
        full
    } else {
        full + 1
    };
    assert((out - 1) * per_page < count <= out * per_page || (count == 0 && out == 0)) by (nonlinear_arith)
        requires
            per_page > 0,
            full == count / per_page,
            out == if count % per_page == 0 { full as int } else { full + 1 },
    ;
    out
}

/// The texts that name the characters to add: what stands between commas
/// where there is a comma, else between line breaks where there is one,
/// else between whitespace.
pub open spec fn id_pieces(text: Seq<char>) -> Seq<Seq<char>> {
    if text.contains(',') {
        pieces(text, ',')
    } else if text.contains('\n') {
        pieces(text, '\n')
    } else {
        words(text)
    }
}

/// The numbers that `pieces` name, each once, in the order in which they
/// come first. A piece is read without the whitespace around it; one that
/// is no number is passed over.
pub open spec fn ids_of(pieces: Seq<Seq<char>>) -> Seq<i64>
    decreases pieces.len(),
{
    if pieces.len() == 0 {
        Seq::<i64>::empty()
    } else {
        let before = ids_of(pieces.drop_last());
        match i64_value(trimmed(pieces.last())) {
            Some(id) => if before.contains(id) {
                before
            } else {
                before.push(id)
            },
            None => before,
        }
    }
}

/// The numbers of the characters that a message names.
pub open spec fn spec_parse_ids(text: Seq<char>) -> Seq<i64> {
    ids_of(id_pieces(trimmed(text)))
}

fn seen(ids: &Vec<i64>, id: i64) -> (out: bool)
    ensures
        out == ids@.contains(id),
{
    let mut i: usize = 0;
    while i < ids.len()
        invariant
            i <= ids@.len(),
            forall|k: int| 0 <= k < i ==> ids@[k] != id,
        decreases ids.len() - i,
    {
        if ids[i] == id {
            return true;
        }
        i = i + 1;
    }
    false
}

/// Reads the numbers of the characters that a message names, separated by
/// commas, by line breaks or by whitespace.
pub fn parse_ids(text: &str) -> (out: Vec<i64>)
    ensures
        out@ == spec_parse_ids(text@),
        out@.no_duplicates(),
{
    let text = trim(text);
    let parts = if has_char(text.as_str(), ',') {
        split_on(text.as_str(), ',')
    } else if has_char(text.as_str(), '\n') {
        split_on(text.as_str(), '\n')
    } else {
        split_whitespace(text.as_str())
    };
    let ghost all = views(parts@);
    let mut out: Vec<i64> = Vec::new();
    let mut i: usize = 0;
    assert(all.take(0) =~= Seq::<Seq<char>>::empty());
    while i < parts.len()
        invariant
            i <= parts@.len(),
            all == views(parts@),
            out@ == ids_of(all.take(i as int)),
            out@.no_duplicates(),
        decreases parts.len() - i,
    {
        let ghost before = all.take(i as int);
        let ghost after = all.take(i + 1);
        assert(after.drop_last() =~= before);
        assert(after.last() == parts@[i as int]@);
        let piece = trim(parts[i].as_str());
        match parse_i64(piece.as_str()) {
            Some(id) => {
                if !seen(&out, id) {
                    out.push(id);
                }
            },
            None => {},
        }
        i = i + 1;
    }
    assert(all.take(parts@.len() as int) =~= all);
    out
}

/// Moves `character` into series `series_id`, and says whether that
/// changed the record, which is then to be stored.
pub fn adopt(character: &mut Character, series_id: i64) -> (changed: bool)
    ensures
        changed == (old(character).series_id != series_id),
        *final(character) == (Character { series_id, ..*old(character) }),
{
    if character.series_id != series_id {
        character.series_id = series_id;
        true
    } else {
        false
    }
}

/// Takes `character` out of its series: it belongs to none.
pub fn detach(character: &mut Character)
    ensures
        *final(character) == (Character { series_id: 0, ..*old(character) }),
{
    character.series_id = 0;
}

/// What is said after characters were sent to be added: which were added
/// to the series, or that none was.
pub open spec fn spec_added_notice(i18n: &I18n, names: Seq<Seq<char>>, title: Seq<char>) -> Seq<
    char,
> {
    if names.len() == 0 {
        replaced(i18n.spec_get("no_character_added"@), "{title}"@, title)
    } else {
        replaced(
            replaced(
                i18n.spec_get("characters_added_to_series"@),
                "{names}"@,
                joined(names, ", "@),
            ),
            "{title}"@,
            title,
        )
    }
}

/// Writes what is said after characters were sent to be added. `names`
/// are the names of those whose series changed.
pub fn added_notice(i18n: &I18n, names: &Vec<String>, title: &str) -> (out: String)
    ensures
        out@ == spec_added_notice(i18n, views(names@), title@),
{
    if names.len() == 0 {
        replace(i18n.get("no_character_added").as_str(), "{title}", title)
    } else {
        let list = join_from(names, 0, ", ");
        assert(views(names@).skip(0) =~= views(names@));
        let with_names = replace(
            i18n.get("characters_added_to_series").as_str(),
            "{names}",
            list.as_str(),
        );
        replace(with_names.as_str(), "{title}", title)
    }
}

/// What the bot does about a request to remove a character from the
/// series.
#[derive(Clone, Copy, Debug, PartialEq, Eq, Structural)]
pub enum Removal {
    /// The character is unknown: show the characters to pick from.
    ShowMenu,
    /// Ask whether to remove the character.
    Ask,
    /// Take the character out of the series with `detach`, store it, and
    /// show the characters to pick from.
    Remove,
}

/// Says what the bot does about a request to remove a character, once it
/// is known whether the character exists.
pub fn removal(confirmed: bool, found: bool) -> (out: Removal)
    ensures
        out == if !found {
            Removal::ShowMenu
        } else if confirmed {
            Removal::Remove
        } else {
            Removal::Ask
        },
{
    if !found {
        Removal::ShowMenu
    } else if confirmed {
        Removal::Remove
    } else {
        Removal::Ask
    }
}

// ---------------------------------------------------------------------------
// What is shown
// ---------------------------------------------------------------------------

/// The word that payloads about series start with.
pub open spec fn kind() -> Seq<char> {
    "series"@
}

/// The keys of the fields of a series, in the order of the menu.
pub open spec fn field_keys() -> Seq<Seq<char>> {
    seq!["title"@, "artist"@, "aliases"@, "banner"@, "media_type"@, "characters"@]
}

fn write_field_keys() -> (out: Vec<String>)
    ensures
        views(out@) == field_keys(),
{
    let mut out: Vec<String> = Vec::new();
    out.push(String::from_str("title"));
    out.push(String::from_str("artist"));
    out.push(String::from_str("aliases"));
    out.push(String::from_str("banner"));
    out.push(String::from_str("media_type"));
    out.push(String::from_str("characters"));
    assert(views(out@) =~= field_keys());
    out
}

/// The payload that shows page `index` of series `id` to user
/// `sender_id`.
pub open spec fn page_data(id: i64, sender_id: i64, index: int) -> Seq<char> {
    spec_numbered(
        spec_numbered(spec_numbered("series "@, id as int, " "@), sender_id as int, " "@),
        index,
        Seq::<char>::empty(),
    )
}

/// Writes the payload that shows page `index` of series `id` to user
/// `sender_id`.
pub fn write_page_data(id: i64, sender_id: i64, index: usize) -> (out: String)
    ensures
        out@ == page_data(id, sender_id, index as int),
{
    proof {
        reveal_strlit("");
        assert(""@ =~= Seq::<char>::empty());
    }
    let head = numbered("series ", id, " ");
    let middle = numbered(head.as_str(), sender_id, " ");
    indexed(middle.as_str(), index, "")
}

/// The kinds of work, in the order of the menu.
pub open spec fn media_types() -> Seq<Media> {
    seq![
        Media::Anime,
        Media::Game,
        Media::Manga,
        Media::Manhua,
        Media::Manhwa,
        Media::LightNovel,
        Media::VisualNovel,
        Media::Unknown,
    ]
}

/// The button of a kind of work: the text under its key with `_button`
/// behind it, and its key as payload.
pub open spec fn media_face(i18n: &I18n, media: Media) -> (Seq<char>, Seq<char>) {
    (i18n.spec_get(media.spec_key() + "_button"@), media.spec_key())
}

fn write_media_button(i18n: &I18n, media: Media) -> (out: Button)
    ensures
        face(out) == media_face(i18n, media),
{
    let key = media.key();
    let mut label = media.key();
    label.append("_button");
    button(i18n.get(label.as_str()), key)
}

/// The kinds of work to choose from, three to a row.
pub open spec fn media_menu(i18n: &I18n) -> Seq<Layout> {
    seq![
        Layout::Grid(Seq::new(8, |k: int| media_face(i18n, media_types()[k])), 3),
    ]
}

fn write_media_menu(i18n: &I18n) -> (out: Vec<Block>)
    ensures
        layouts(out@) == media_menu(i18n),
{
    let mut buttons: Vec<Button> = Vec::new();
    buttons.push(write_media_button(i18n, Media::Anime));
    buttons.push(write_media_button(i18n, Media::Game));
    buttons.push(write_media_button(i18n, Media::Manga));
    buttons.push(write_media_button(i18n, Media::Manhua));
    buttons.push(write_media_button(i18n, Media::Manhwa));
    buttons.push(write_media_button(i18n, Media::LightNovel));
    buttons.push(write_media_button(i18n, Media::VisualNovel));
    buttons.push(write_media_button(i18n, Media::Unknown));
    assert(faces(buttons@) =~= Seq::new(8, |k: int| media_face(i18n, media_types()[k])));
    let mut out: Vec<Block> = Vec::new();
    out.push(grid(buttons, 3));
    assert(layouts(out@) =~= media_menu(i18n));
    out
}

/// The payload that is about page `page` of the characters of series
/// `id`, followed by `tail`.
pub open spec fn characters_data(id: i64, page: int, tail: Seq<char>) -> Seq<char> {
    spec_numbered(edit_data(kind(), id, " characters "@), page, tail)
}

/// Writes the payload that is about a page of the characters of a series.
pub fn write_characters_data(id: i64, page: usize, tail: &str) -> (out: String)
    ensures
        out@ == characters_data(id, page as int, tail@),
{
    let head = write_edit_data("series", id, " characters ");
    indexed(head.as_str(), page, tail)
}

/// The payload that asks to remove character `character_id`, followed by
/// `tail`.
pub open spec fn remove_data(id: i64, page: int, character_id: i64, tail: Seq<char>) -> Seq<char> {
    spec_numbered(characters_data(id, page, " remove "@), character_id as int, tail)
}

/// Writes the payload that asks to remove a character.
pub fn write_remove_data(id: i64, page: usize, character_id: i64, tail: &str) -> (out: String)
    ensures
        out@ == remove_data(id, page as int, character_id, tail@),
{
    let head = write_characters_data(id, page, " remove ");
    numbered(head.as_str(), character_id, tail)
}

/// The buttons that turn the pages: back where the page is not the first,
/// on where it is not the last.
pub open spec fn turn_faces(id: i64, page: int, total_pages: int) -> Seq<(Seq<char>, Seq<char>)> {
    (if page > 1 {
        seq![("⬅"@, characters_data(id, page - 1, Seq::<char>::empty()))]
    } else {
        Seq::<(Seq<char>, Seq<char>)>::empty()
    }) + (if page < total_pages {
        seq![("➡"@, characters_data(id, page + 1, Seq::<char>::empty()))]
    } else {
        Seq::<(Seq<char>, Seq<char>)>::empty()
    })
}

/// The buttons under a page of the characters of a series: the page
/// turners, add and remove, and back to the fields.
pub open spec fn characters_menu(i18n: &I18n, id: i64, page: int, total_pages: int) -> Seq<
    Layout,
> {
    seq![
        Layout::Grid(turn_faces(id, page, total_pages), 2),
        Layout::Row(
            seq![
                (i18n.spec_get("add_button"@), edit_data(kind(), id, " characters add"@)),
                (i18n.spec_get("remove_button"@), characters_data(id, page, " remove"@)),
            ],
        ),
        Layout::Row(
            seq![(i18n.spec_get("back_button"@), edit_data(kind(), id, Seq::<char>::empty()))],
        ),
    ]
}

/// Writes the buttons under page `page` of `total_pages` of the characters
/// of series `id`.
pub fn write_characters_menu(i18n: &I18n, id: i64, page: usize, total_pages: usize) -> (out: Vec<
    Block,
>)
    ensures
        layouts(out@) == characters_menu(i18n, id, page as int, total_pages as int),
{
    proof {
        reveal_strlit("");
        assert(""@ =~= Seq::<char>::empty());
    }
    let mut turners: Vec<Button> = Vec::new();
    assert(faces(turners@) =~= Seq::<(Seq<char>, Seq<char>)>::empty());
    if page > 1 {
        turners.push(button(String::from_str("⬅"), write_characters_data(id, page - 1, "")));
    }
    if page < total_pages {
        turners.push(button(String::from_str("➡"), write_characters_data(id, page + 1, "")));
    }
    assert(faces(turners@) =~= turn_faces(id, page as int, total_pages as int));
    let add = labelled(i18n, "add_button", write_edit_data("series", id, " characters add"));
    let remove = labelled(i18n, "remove_button", write_characters_data(id, page, " remove"));
    let back = labelled(i18n, "back_button", write_edit_data("series", id, ""));
    let mut out: Vec<Block> = Vec::new();
    out.push(grid(turners, 2));
    out.push(pair(add, remove));
    out.push(single(back));
    assert(layouts(out@) =~= characters_menu(i18n, id, page as int, total_pages as int));
    out
}

/// The button that picks a character to remove: its number and name, and
/// the request to remove it as payload.
pub open spec fn pick_face(id: i64, page: int, character: Character) -> (Seq<char>, Seq<char>) {
    (
        decimal(character.id as int) + ". "@ + character.name@,
        remove_data(id, page, character.id, Seq::<char>::empty()),
    )
}

/// The characters of a page, three to a row, to pick the one to remove,
/// and a button that leads back to the page.
pub open spec fn remove_menu(i18n: &I18n, id: i64, page: int, characters: Seq<Character>) -> Seq<
    Layout,
> {
    seq![
        Layout::Grid(Seq::new(characters.len(), |k: int| pick_face(id, page, characters[k])), 3),
        Layout::Row(
            seq![
                (i18n.spec_get("cancel_button"@), characters_data(id, page, Seq::<char>::empty())),
            ],
        ),
    ]
}

/// Writes the buttons that pick the character to remove among
/// `characters`, those of page `page`.
pub fn write_remove_menu(i18n: &I18n, id: i64, page: usize, characters: &Vec<Character>) -> (out:
    Vec<Block>)
    ensures
        layouts(out@) == remove_menu(i18n, id, page as int, characters@),
{
    proof {
        reveal_strlit("");
        assert(""@ =~= Seq::<char>::empty());
    }
    let mut buttons: Vec<Button> = Vec::new();
    let mut k: usize = 0;
    while k < characters.len()
        invariant
            k <= characters@.len(),
            ""@ == Seq::<char>::empty(),
            buttons@.len() == k,
            forall|j: int|
                0 <= j < k ==> face(#[trigger] buttons@[j]) == pick_face(
                    id,
                    page as int,
                    characters@[j],
                ),
        decreases characters.len() - k,
    {
        let character = &characters[k];
        let mut label = i64_to_string(character.id);
        label.append(". ");
        label.append(character.name.as_str());
        buttons.push(button(label, write_remove_data(id, page, character.id, "")));
        k = k + 1;
    }
    assert(faces(buttons@) =~= Seq::new(
        characters@.len(),
        |k: int| pick_face(id, page as int, characters@[k]),
    ));
    let cancel = labelled(i18n, "cancel_button", write_characters_data(id, page, ""));
    let mut out: Vec<Block> = Vec::new();
    out.push(grid(buttons, 3));
    out.push(single(cancel));
    assert(layouts(out@) =~= remove_menu(i18n, id, page as int, characters@));
    out
}

/// The buttons under the question whether to remove a character: cancel
/// and confirm.
pub open spec fn confirm_remove_menu(i18n: &I18n, id: i64, page: int, character_id: i64) -> Seq<
    Layout,
> {
    seq![
        Layout::Row(
            seq![
                (i18n.spec_get("cancel_button"@), characters_data(id, page, " delete"@)),
                (
                    i18n.spec_get("confirm_button"@),
                    remove_data(id, page, character_id, " confirm"@),
                ),
            ],
        ),
    ]
}

/// Writes the buttons under the question whether to remove a character.
pub fn write_confirm_remove_menu(i18n: &I18n, id: i64, page: usize, character_id: i64) -> (out:
    Vec<Block>)
    ensures
        layouts(out@) == confirm_remove_menu(i18n, id, page as int, character_id),
{
    let cancel = labelled(i18n, "cancel_button", write_characters_data(id, page, " delete"));
    let confirm = labelled(
        i18n,
        "confirm_button",
        write_remove_data(id, page, character_id, " confirm"),
    );
    let mut out: Vec<Block> = Vec::new();
    out.push(pair(cancel, confirm));
    assert(layouts(out@) =~= confirm_remove_menu(i18n, id, page as int, character_id));
    out
}

/// The question whether to remove a character from a series.
pub open spec fn spec_confirm_remove(i18n: &I18n, name: Seq<char>, title: Seq<char>) -> Seq<char> {
    replaced(
        replaced(i18n.spec_get("confirm_remove_character_from_series"@), "{name}"@, name),
        "{title}"@,
        title,
    )
}

/// Writes the question whether to remove the character `name` from the
/// series `title`.
pub fn confirm_remove(i18n: &I18n, name: &str, title: &str) -> (out: String)
    ensures
        out@ == spec_confirm_remove(i18n, name@, title@),
{
    let with_name = replace(
        i18n.get("confirm_remove_character_from_series").as_str(),
        "{name}",
        name,
    );
    replace(with_name.as_str(), "{title}", title)
}

/// The buttons of a menu of the editing dialog of `series`, for the
/// administrator `sender_id`. `characters` are the characters of the page
/// that the menu is about, `count` the number of characters of the series.
pub open spec fn spec_menu(
    i18n: &I18n,
    series: Series,
    sender_id: i64,
    menu: Menu,
    characters: Seq<Character>,
    count: nat,
) -> Seq<Layout> {
    match menu {
        Menu::Main => fields_menu(
            i18n,
            kind(),
            series.id,
            field_keys(),
            page_data(series.id, sender_id, 1),
        ),
        Menu::Artist => artist_menu(i18n, kind(), series.id),
        Menu::Aliases => aliases_menu(i18n, kind(), series.id, series.aliases@, None),
        Menu::AliasSelected(i) => aliases_menu(i18n, kind(), series.id, series.aliases@, Some(i)),
        Menu::ConfirmAliasDelete(i) => confirm_alias_menu(i18n, kind(), series.id, i),
        Menu::MediaType => media_menu(i18n),
        Menu::Characters { page } => characters_menu(
            i18n,
            series.id,
            page as int,
            spec_pages(count, CHARACTERS_PER_PAGE as nat) as int,
        ),
        Menu::RemoveCharacter { page } => remove_menu(i18n, series.id, page as int, characters),
        Menu::ConfirmRemove { page, character_id } => confirm_remove_menu(
            i18n,
            series.id,
            page as int,
            character_id,
        ),
    }
}

/// Writes the buttons of a menu of the editing dialog.
pub fn write_menu(
    i18n: &I18n,
    series: &Series,
    sender_id: i64,
    menu: Menu,
    characters: &Vec<Character>,
    count: usize,
) -> (out: Vec<Block>)
    ensures
        layouts(out@) == spec_menu(i18n, *series, sender_id, menu, characters@, count as nat),
{
    match menu {
        Menu::Main => {
            let keys = write_field_keys();
            write_fields_menu(
                i18n,
                "series",
                series.id,
                &keys,
                write_page_data(series.id, sender_id, 1),
            )
        },
        Menu::Artist => write_artist_menu(i18n, "series", series.id),
        Menu::Aliases => write_aliases_menu(i18n, "series", series.id, &series.aliases, None),
        Menu::AliasSelected(i) => write_aliases_menu(
            i18n,
            "series",
            series.id,
            &series.aliases,
            Some(i),
        ),
        Menu::ConfirmAliasDelete(i) => write_confirm_alias_menu(i18n, "series", series.id, i),
        Menu::MediaType => write_media_menu(i18n),
        Menu::Characters { page } => write_characters_menu(
            i18n,
            series.id,
            page,
            pages(count, CHARACTERS_PER_PAGE),
        ),
        Menu::RemoveCharacter { page } => write_remove_menu(i18n, series.id, page, characters),
        Menu::ConfirmRemove { page, character_id } => write_confirm_remove_menu(
            i18n,
            series.id,
            page,
            character_id,
        ),
    }
}

/// The widest number among `characters`, in characters; 0 for none.
pub open spec fn widest_id(characters: Seq<Character>) -> nat
    decreases characters.len(),
{
    if characters.len() == 0 {
        0
    } else {
        let before = widest_id(characters.drop_last());
        let width = decimal(characters.last().id as int).len();
        if width > before {
            width
        } else {
            before
        }
    }
}

/// Measures the widest number among `characters`.
pub fn column_width(characters: &Vec<Character>) -> (out: usize)
    ensures
        out == widest_id(characters@),
{
    let mut out: usize = 0;
    let mut i: usize = 0;
    assert(characters@.take(0) =~= Seq::<Character>::empty());
    while i < characters.len()
        invariant
            i <= characters@.len(),
            out == widest_id(characters@.take(i as int)),
        decreases characters.len() - i,
    {
        let ghost after = characters@.take(i + 1);
        assert(after.drop_last() =~= characters@.take(i as int));
        assert(after.last() == characters@[i as int]);
        let width = decimal_width(characters[i].id);
        if width > out {
            out = width;
        }
        i = i + 1;
    }
    assert(characters@.take(characters@.len() as int) =~= characters@);
    out
}

/// The lines of `characters`, without the artist, their numbers in a
/// column `space_count` wide.
pub open spec fn lines(characters: Seq<Character>, space_count: nat) -> Seq<char>
    decreases characters.len(),
{
    if characters.len() == 0 {
        Seq::<char>::empty()
    } else {
        lines(characters.drop_last(), space_count) + character_partial_info(
            characters.last(),
            false,
            space_count,
        )
    }
}

/// Writes the lines of `characters` behind `out`.
pub fn append_lines(out: &mut String, characters: &Vec<Character>, space_count: usize)
    ensures
        final(out)@ == old(out)@ + lines(characters@, space_count as nat),
{
    let ghost head = out@;
    let mut i: usize = 0;
    assert(characters@.take(0) =~= Seq::<Character>::empty());
    assert(head + Seq::<char>::empty() =~= head);
    while i < characters.len()
        invariant
            i <= characters@.len(),
            out@ == head + lines(characters@.take(i as int), space_count as nat),
        decreases characters.len() - i,
    {
        let ghost before = characters@.take(i as int);
        let ghost after = characters@.take(i + 1);
        assert(after.drop_last() =~= before);
        assert(after.last() == characters@[i as int]);
        let line = construct_character_partial_info(&characters[i], false, space_count);
        out.append(line.as_str());
        assert(out@ =~= head + (lines(before, space_count as nat) + line@));
        i = i + 1;
    }
    assert(characters@.take(characters@.len() as int) =~= characters@);
}

/// The mark of a page: a bookmark, the page and the number of pages.
pub open spec fn page_mark(page: int, total: int) -> Seq<char> {
    "🔖 | "@ + decimal(page) + "/"@ + decimal(total)
}

/// Writes the mark of a page behind `out`.
pub fn append_page_mark(out: &mut String, page: usize, total: usize)
    ensures
        final(out)@ == old(out)@ + page_mark(page as int, total as int),
{
    let ghost head = out@;
    out.append("🔖 | ");
    out.append(u64_to_string(page as u64).as_str());
    out.append("/");
    out.append(u64_to_string(total as u64).as_str());
    assert(out@ =~= head + page_mark(page as int, total as int));
}

/// The text of a page of the characters of a series: a heading with the
/// title, the lines of the characters, and the mark of the page.
pub open spec fn spec_characters_text(
    i18n: &I18n,
    title: Seq<char>,
    characters: Seq<Character>,
    page: int,
    count: nat,
) -> Seq<char> {
    replaced(i18n.spec_get("series_characters"@), "{title}"@, title) + "\n\n"@ + lines(
        characters,
        widest_id(characters),
    ) + "\n"@ + page_mark(page, spec_pages(count, CHARACTERS_PER_PAGE as nat) as int)
}

/// Writes the text of page `page` of the characters of a series that has
/// `count` characters; `characters` are those of the page.
pub fn characters_text(
    i18n: &I18n,
    title: &str,
    characters: &Vec<Character>,
    page: usize,
    count: usize,
) -> (out: String)
    ensures
        out@ == spec_characters_text(i18n, title@, characters@, page as int, count as nat),
{
    let mut out = replace(i18n.get("series_characters").as_str(), "{title}", title);
    out.append("\n\n");
    let width = column_width(characters);
    append_lines(&mut out, characters, width);
    out.append("\n");
    append_page_mark(&mut out, page, pages(count, CHARACTERS_PER_PAGE));
    out
}

/// The text above a menu that needs nothing but the series; `None` for the
/// menus about characters, whose texts `characters_text` and
/// `confirm_remove` write.
pub open spec fn spec_menu_text(i18n: &I18n, series: Series, menu: Menu) -> Option<Seq<char>> {
    match menu {
        Menu::Main => Some(series_info(series, 0, true)),
        Menu::ConfirmAliasDelete(i) => if i < series.aliases@.len() {
            Some(spec_confirm_delete(i18n, "alias"@, series.aliases@[i as int]@))
        } else {
            None
        },
        Menu::Characters { page } => None,
        Menu::ConfirmRemove { page, character_id } => None,
        Menu::RemoveCharacter { page } => Some(i18n.spec_get("select_character_to_remove"@)),
        _ => Some(i18n.spec_get("select_button"@)),
    }
}

/// Writes the text above a menu that needs nothing but the series.
pub fn menu_text(i18n: &I18n, series: &Series, menu: Menu) -> (out: Option<String>)
    ensures
        match out {
            Some(text) => spec_menu_text(i18n, *series, menu) == Some(text@),
            None => spec_menu_text(i18n, *series, menu) is None,
        },
{
    match menu {
        Menu::Main => Some(construct_series_info(series, 0, true)),
        Menu::ConfirmAliasDelete(i) => {
            if i < series.aliases.len() {
                Some(confirm_delete(i18n, "alias", series.aliases[i].as_str()))
            } else {
                None
            }
        },
        Menu::Characters { page } => None,
        Menu::ConfirmRemove { page, character_id } => None,
        Menu::RemoveCharacter { page } => Some(i18n.get("select_character_to_remove")),
        _ => Some(i18n.get("select_button")),
    }
}

// ---------------------------------------------------------------------------
// Adding, deleting and listing series
// ---------------------------------------------------------------------------

/// A new series with the title `title`, as it was sent, numbered behind
/// `last_id`; the first series has the number 1. `None` where no number is
/// left.
pub fn new_series(last_id: Option<i64>, title: &str) -> (out: Option<Series>)
    ensures
        match out {
            Some(series) => {
                &&& series.id == match last_id {
                    Some(id) => id + 1,
                    None => 1,
                }
                &&& series.title@ == title@
                &&& series.artist@.len() == 0
                &&& series.banner is None
                &&& series.aliases@.len() == 0
                &&& series.liked_by@.len() == 0
                &&& series.image_link@.len() == 0
                &&& series.media_type == Media::Unknown
            },
            None => last_id == Some(i64::MAX),
        },
{
    let last = match last_id {
        Some(id) => id,
        None => 0,
    };
    if last == i64::MAX {
        return None;
    }
    let mut series = Series::default();
    series.id = last + 1;
    series.title = String::from_str(title);
    Some(series)
}

/// Where the dialog that adds a series stands.
#[derive(Clone, Copy, Debug, PartialEq, Eq, Structural)]
pub enum AddStage {
    /// The title was asked for.
    AwaitingTitle,
    /// The series `id` exists and its banner was asked for.
    AwaitingBanner { id: i64 },
    /// The dialog is over.
    Done,
}

/// What the caller does when an answer came, or none in time.
#[derive(Clone, Copy, Debug, PartialEq, Eq, Structural)]
pub enum AddAction {
    /// Create the series from the title with `new_series`, store it, say
    /// that it was created, show its head and ask for the banner.
    Create,
    /// Store the banner with `answer_banner` and show the head with the
    /// banner and a button to go on editing.
    AttachBanner { id: i64 },
    /// Say that the operation was cancelled.
    Cancel,
    /// Say that the operation was cancelled and delete the series, which
    /// has no banner.
    CancelAndDelete { id: i64 },
    /// Nothing.
    Nothing,
}

/// What follows in the dialog that adds a series: `answered` says whether
/// the answer came in time.
pub open spec fn spec_add_next(stage: AddStage, answered: bool) -> AddAction {
    match stage {
        AddStage::AwaitingTitle => if answered {
            AddAction::Create
        } else {
            AddAction::Cancel
        },
        AddStage::AwaitingBanner { id } => if answered {
            AddAction::AttachBanner { id }
        } else {
            AddAction::CancelAndDelete { id }
        },
        AddStage::Done => AddAction::Nothing,
    }
}

/// Says what follows in the dialog that adds a series. After the title the
/// banner is asked for; after the banner, and after any silence, the
/// dialog is over, and a series that got no banner in time is deleted.
/// `created` is the number of the series made from the title, if making it
/// worked.
pub fn add_next(stage: AddStage, answered: bool, created: Option<i64>) -> (out: (
    AddStage,
    AddAction,
))
    ensures
        out.1 == spec_add_next(stage, answered),
        out.0 == match (stage, answered, created) {
            (AddStage::AwaitingTitle, true, Some(id)) => AddStage::AwaitingBanner { id },
            _ => AddStage::Done,
        },
{
    match stage {
        AddStage::AwaitingTitle => {
            if answered {
                match created {
                    Some(id) => (AddStage::AwaitingBanner { id }, AddAction::Create),
                    None => (AddStage::Done, AddAction::Create),
                }
            } else {
                (AddStage::Done, AddAction::Cancel)
            }
        },
        AddStage::AwaitingBanner { id } => {
            if answered {
                (AddStage::Done, AddAction::AttachBanner { id })
            } else {
                (AddStage::Done, AddAction::CancelAndDelete { id })
            }
        },
        AddStage::Done => (AddStage::Done, AddAction::Nothing),
    }
}

/// The button that goes on to edit the series that was added.
pub fn continue_menu(i18n: &I18n, id: i64) -> (out: Vec<Block>)
    ensures
        layouts(out@) == seq![
            Layout::Row(
                seq![
                    (
                        i18n.spec_get("continue_button"@),
                        edit_data(kind(), id, Seq::<char>::empty()),
                    ),
                ],
            ),
        ],
{
    proof {
        reveal_strlit("");
        assert(""@ =~= Seq::<char>::empty());
    }
    let go_on = labelled(i18n, "continue_button", write_edit_data("series", id, ""));
    let mut out: Vec<Block> = Vec::new();
    out.push(single(go_on));
    assert(layouts(out@) =~= seq![
        Layout::Row(
            seq![(i18n.spec_get("continue_button"@), edit_data(kind(), id, Seq::<char>::empty()))],
        ),
    ]);
    out
}

/// The buttons under the question whether to delete a series: cancel,
/// which leads back to the series, and confirm.
pub open spec fn confirm_delete_menu(i18n: &I18n, id: i64, sender_id: i64) -> Seq<Layout> {
    seq![
        Layout::Row(
            seq![
                (i18n.spec_get("cancel_button"@), page_data(id, sender_id, 1)),
                (i18n.spec_get("confirm_button"@), delete_data(kind(), id, " confirm"@)),
            ],
        ),
    ]
}

/// Writes the buttons under the question whether to delete a series.
pub fn write_confirm_delete_menu(i18n: &I18n, id: i64, sender_id: i64) -> (out: Vec<Block>)
    ensures
        layouts(out@) == confirm_delete_menu(i18n, id, sender_id),
{
    let cancel = labelled(i18n, "cancel_button", write_page_data(id, sender_id, 1));
    let confirm = labelled(i18n, "confirm_button", write_delete_data("series", id, " confirm"));
    let mut out: Vec<Block> = Vec::new();
    out.push(pair(cancel, confirm));
    assert(layouts(out@) =~= confirm_delete_menu(i18n, id, sender_id));
    out
}

/// The line of a series in the list.
pub open spec fn table_row(series: Series) -> Seq<char> {
    "\n"@ + decimal(series.id as int) + " | "@ + series.title@ + " | "@
        + series.media_type.spec_name()
}

/// The lines of `all`, one after the other.
pub open spec fn table_rows(all: Seq<Series>) -> Seq<char>
    decreases all.len(),
{
    if all.len() == 0 {
        Seq::<char>::empty()
    } else {
        table_rows(all.drop_last()) + table_row(all.last())
    }
}

/// The list of all series: a heading, then a line for each.
pub open spec fn spec_table(all: Seq<Series>) -> Seq<char> {
    "id | title | media type\n"@ + table_rows(all)
}

fn write_table_row(series: &Series) -> (out: String)
    ensures
        out@ == table_row(*series),
{
    let mut out = String::from_str("\n");
    out.append(i64_to_string(series.id).as_str());
    out.append(" | ");
    out.append(series.title.as_str());
    out.append(" | ");
    out.append(series.media_type.name().as_str());
    out
}

/// Writes the list of all series.
pub fn table(all: &Vec<Series>) -> (out: String)
    ensures
        out@ == spec_table(all@),
{
    let mut out = String::from_str("id | title | media type\n");
    let ghost head = out@;
    let mut i: usize = 0;
    assert(all@.take(0) =~= Seq::<Series>::empty());
    assert(head + Seq::<char>::empty() =~= head);
    while i < all.len()
        invariant
            i <= all@.len(),
            head == "id | title | media type\n"@,
            out@ == head + table_rows(all@.take(i as int)),
        decreases all.len() - i,
    {
        let ghost before = all@.take(i as int);
        let ghost after = all@.take(i + 1);
        assert(after.drop_last() =~= before);
        assert(after.last() == all@[i as int]);
        let row = write_table_row(&all[i]);
        out.append(row.as_str());
        assert(out@ =~= head + (table_rows(before) + row@));
        i = i + 1;
    }
    assert(all@.take(all@.len() as int) =~= all@);
    out
}

} // verus!
