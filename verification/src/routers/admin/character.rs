//! Adding, editing and deleting characters.
//!
//! An administrator edits a character by pressing buttons. Each button
//! sends a payload of words, such as `char edit 7 aliases rename 2`. The
//! functions here read such a payload, say what the bot does first (show a
//! menu, ask for a text, wait for a choice), and apply the answer to the
//! record. Sending, waiting and storing are the caller's.

use crate::database::models::{Character, Gender};
use crate::routers::admin::aliases::{
    add_alias, delete_alias, has_room, rename_alias, spec_check_alias, spec_renamed, AliasCheck,
    Renamed, MAX_ALIASES,
};
use crate::modules::i18n::I18n;
use crate::routers::admin::menus::{
    aliases_menu, artist_menu, card_menu, confirm_alias_menu, edit_data, fields_menu, labelled,
    write_aliases_menu, write_artist_menu, write_card_menu, write_confirm_alias_menu,
    write_edit_data, write_fields_menu,
};
use crate::routers::admin::notices::{confirm_delete, spec_confirm_delete, Field};
use crate::routers::keyboard::{
    button, face, faces, grid, layouts, numbered, pair, single, spec_numbered, Block, Button,
    Layout,
};
use crate::text::{
    decimal, i64_to_string, i64_value, parse_i64, parse_u64, replace, replaced, same_text, trim,
    trimmed, u64_to_string, u64_value, views,
};
use crate::utils::{bubble, gender_symbol, spec_bubble, spec_gender_symbol};
use vstd::prelude::*;
use vstd::string::*;

verus! {

/// The seconds that an administrator has to press a button of a choice.
pub const CHOICE_TIMEOUT: u64 = 10;

/// What a press of a button in the editing dialog asks for.
#[derive(Clone, Copy, Debug, PartialEq, Eq, Structural)]
pub enum CharacterEdit {
    /// The menu of fields.
    Main,
    /// Back to the card of the character.
    Back,
    Name,
    /// The menu of what can be edited of the artist.
    Artist,
    ArtistName,
    ArtistLink,
    /// The list of aliases.
    Aliases,
    AliasAdd,
    /// What can be done with the alias at a place.
    AliasEdit(usize),
    /// The question whether to delete the alias at a place.
    AliasDelete(usize),
    /// The answer that the alias at a place is to be deleted.
    AliasDeleteConfirmed(usize),
    AliasRename(usize),
    Photo,
    Gender,
    Stars,
}

/// The place in a list that a word names, if it names one.
pub open spec fn index_value(word: Seq<char>) -> Option<usize> {
    match u64_value(word) {
        Some(v) => if v <= usize::MAX {
            Some(v as usize)
        } else {
            None
        },
        None => None,
    }
}

/// Reads a place in a list.
pub fn parse_index(word: &str) -> (out: Option<usize>)
    ensures
        out == index_value(word@),
{
    match parse_u64(word) {
        Some(v) => if v <= usize::MAX as u64 {
            Some(v as usize)
        } else {
            None
        },
        None => None,
    }
}

/// The place that the word at `at` names, if there is such a word and it
/// names one.
pub open spec fn index_at(parts: Seq<Seq<char>>, at: int) -> Option<usize> {
    if at < parts.len() {
        index_value(parts[at])
    } else {
        None
    }
}

/// What the words behind the number of the character ask for, where the
/// fourth word is `aliases`.
pub open spec fn spec_alias_edit(parts: Seq<Seq<char>>) -> CharacterEdit {
    if parts.len() < 5 {
        CharacterEdit::Aliases
    } else if parts[4] == "add"@ {
        CharacterEdit::AliasAdd
    } else if parts[4] == "edit"@ {
        match index_at(parts, 5) {
            Some(i) => CharacterEdit::AliasEdit(i),
            None => CharacterEdit::Aliases,
        }
    } else if parts[4] == "delete"@ {
        match index_at(parts, 5) {
            Some(i) => if parts.len() == 7 && parts[6] == "confirm"@ {
                CharacterEdit::AliasDeleteConfirmed(i)
            } else {
                CharacterEdit::AliasDelete(i)
            },
            None => CharacterEdit::Aliases,
        }
    } else if parts[4] == "rename"@ {
        match index_at(parts, 5) {
            Some(i) => CharacterEdit::AliasRename(i),
            None => CharacterEdit::Aliases,
        }
    } else {
        CharacterEdit::Aliases
    }
}

/// What a payload asks for, word by word: the third word is the number of
/// the character, the words behind it say what to edit. A payload of fewer
/// than three words, or without a number in the third place, asks for
/// nothing; words that are not understood ask for the menu of fields.
pub open spec fn spec_parse(parts: Seq<Seq<char>>) -> Option<(i64, CharacterEdit)> {
    if parts.len() < 3 {
        None
    } else {
        match i64_value(parts[2]) {
            None => None,
            Some(id) => Some(
                (
                    id,
                    if parts.len() == 3 {
                        CharacterEdit::Main
                    } else if parts[3] == "back"@ {
                        CharacterEdit::Back
                    } else if parts[3] == "name"@ {
                        CharacterEdit::Name
                    } else if parts[3] == "artist"@ {
                        if parts.len() != 5 {
                            CharacterEdit::Artist
                        } else if parts[4] == "name"@ {
                            CharacterEdit::ArtistName
                        } else if parts[4] == "link"@ {
                            CharacterEdit::ArtistLink
                        } else {
                            CharacterEdit::Main
                        }
                    } else if parts[3] == "aliases"@ {
                        spec_alias_edit(parts)
                    } else if parts[3] == "photo"@ {
                        CharacterEdit::Photo
                    } else if parts[3] == "gender"@ {
                        CharacterEdit::Gender
                    } else if parts[3] == "stars"@ {
                        CharacterEdit::Stars
                    } else {
                        CharacterEdit::Main
                    },
                ),
            ),
        }
    }
}

fn index_in(parts: &Vec<String>, at: usize) -> (out: Option<usize>)
    ensures
        out == index_at(views(parts@), at as int),
{
    if at < parts.len() {
        parse_index(parts[at].as_str())
    } else {
        None
    }
}

fn parse_alias_edit(parts: &Vec<String>) -> (out: CharacterEdit)
    ensures
        out == spec_alias_edit(views(parts@)),
{
    if parts.len() < 5 {
        return CharacterEdit::Aliases;
    }
    let word = parts[4].as_str();
    if same_text(word, "add") {
        CharacterEdit::AliasAdd
    } else if same_text(word, "edit") {
        match index_in(parts, 5) {
            Some(i) => CharacterEdit::AliasEdit(i),
            None => CharacterEdit::Aliases,
        }
    } else if same_text(word, "delete") {
        match index_in(parts, 5) {
            Some(i) => {
                if parts.len() == 7 && same_text(parts[6].as_str(), "confirm") {
                    CharacterEdit::AliasDeleteConfirmed(i)
                } else {
                    CharacterEdit::AliasDelete(i)
                }
            },
            None => CharacterEdit::Aliases,
        }
    } else if same_text(word, "rename") {
        match index_in(parts, 5) {
            Some(i) => CharacterEdit::AliasRename(i),
            None => CharacterEdit::Aliases,
        }
    } else {
        CharacterEdit::Aliases
    }
}

/// Reads the payload of a button of the editing dialog, split into words.
pub fn parse_edit(parts: &Vec<String>) -> (out: Option<(i64, CharacterEdit)>)
    ensures
        out == spec_parse(views(parts@)),
{
    if parts.len() < 3 {
        return None;
    }
    let id = match parse_i64(parts[2].as_str()) {
        Some(id) => id,
        None => {
            return None;
        },
    };
    if parts.len() == 3 {
        return Some((id, CharacterEdit::Main));
    }
    let word = parts[3].as_str();
    let edit = if same_text(word, "back") {
        CharacterEdit::Back
    } else if same_text(word, "name") {
        CharacterEdit::Name
    } else if same_text(word, "artist") {
        if parts.len() != 5 {
            CharacterEdit::Artist
        } else if same_text(parts[4].as_str(), "name") {
            CharacterEdit::ArtistName
        } else if same_text(parts[4].as_str(), "link") {
            CharacterEdit::ArtistLink
        } else {
            CharacterEdit::Main
        }
    } else if same_text(word, "aliases") {
        parse_alias_edit(parts)
    } else if same_text(word, "photo") {
        CharacterEdit::Photo
    } else if same_text(word, "gender") {
        CharacterEdit::Gender
    } else if same_text(word, "stars") {
        CharacterEdit::Stars
    } else {
        CharacterEdit::Main
    };
    Some((id, edit))
}

/// A set of buttons of the editing dialog.
#[derive(Clone, Copy, Debug, PartialEq, Eq, Structural)]
pub enum Menu {
    /// Under the card of the character: edit and delete.
    Card,
    /// The fields that can be edited, and back.
    Main,
    /// The name and the link of the artist, and back.
    Artist,
    /// The aliases, one to a row, then add and back.
    Aliases,
    /// As `Aliases`, but the row of the alias at this place offers to
    /// rename it, to leave it, or to delete it.
    AliasSelected(usize),
    /// Cancel and confirm, under the question whether to delete the alias
    /// at this place.
    ConfirmAliasDelete(usize),
    /// The genders.
    Gender,
    /// The numbers of stars.
    Stars,
}

/// What the bot does first when a button of the editing dialog was pressed.
#[derive(Clone, Copy, Debug, PartialEq, Eq, Structural)]
pub enum Step {
    /// Show these buttons; nothing more follows.
    Show(Menu),
    /// Ask for this field and wait for the answer; `answer_text` or
    /// `answer_photo` applies it.
    Ask(Field),
    /// Show these buttons and wait for one of them to be pressed;
    /// `answer_choice` applies it. Without a press in time the menu of
    /// fields is shown.
    Choose(Menu),
    /// Say that the character has all the aliases it can have.
    TellMaxAliases,
    /// The record was changed: store it, then show these buttons.
    Store(Menu),
}

impl CharacterEdit {
    /// What the bot does first, for a character whose aliases are
    /// `aliases`.
    pub open spec fn spec_first_step(self, aliases: Seq<String>) -> Step {
        match self {
            CharacterEdit::Main => Step::Show(Menu::Main),
            CharacterEdit::Back => Step::Show(Menu::Card),
            CharacterEdit::Name => Step::Ask(Field::Name),
            CharacterEdit::Artist => Step::Show(Menu::Artist),
            CharacterEdit::ArtistName => Step::Ask(Field::ArtistName),
            CharacterEdit::ArtistLink => Step::Ask(Field::ImageLink),
            CharacterEdit::Aliases => Step::Show(Menu::Aliases),
            CharacterEdit::AliasAdd => if aliases.len() >= MAX_ALIASES {
                Step::TellMaxAliases
            } else {
                Step::Ask(Field::Alias)
            },
            CharacterEdit::AliasEdit(i) => Step::Show(Menu::AliasSelected(i)),
            CharacterEdit::AliasDelete(i) => if i < aliases.len() {
                Step::Show(Menu::ConfirmAliasDelete(i))
            } else {
                Step::Show(Menu::Aliases)
            },
            CharacterEdit::AliasDeleteConfirmed(i) => if i < aliases.len() {
                Step::Store(Menu::Aliases)
            } else {
                Step::Show(Menu::Aliases)
            },
            CharacterEdit::AliasRename(_) => Step::Ask(Field::Alias),
            CharacterEdit::Photo => Step::Ask(Field::Photo),
            CharacterEdit::Gender => Step::Choose(Menu::Gender),
            CharacterEdit::Stars => Step::Choose(Menu::Stars),
        }
    }

    /// Says what the bot does first. Only the confirmed deletion of an
    /// alias changes the record at this point: it removes the alias.
    pub fn first_step(&self, character: &mut Character) -> (out: Step)
        ensures
            out == self.spec_first_step(old(character).aliases@),
            *final(character) == (Character {
                aliases: final(character).aliases,
                ..*old(character)
            }),
            final(character).aliases@ == match *self {
                CharacterEdit::AliasDeleteConfirmed(i) => if i < old(character).aliases@.len() {
                    old(character).aliases@.remove(i as int)
                } else {
                    old(character).aliases@
                },
                _ => old(character).aliases@,
            },
    {
        match *self {
            CharacterEdit::Main => Step::Show(Menu::Main),
            CharacterEdit::Back => Step::Show(Menu::Card),
            CharacterEdit::Name => Step::Ask(Field::Name),
            CharacterEdit::Artist => Step::Show(Menu::Artist),
            CharacterEdit::ArtistName => Step::Ask(Field::ArtistName),
            CharacterEdit::ArtistLink => Step::Ask(Field::ImageLink),
            CharacterEdit::Aliases => Step::Show(Menu::Aliases),
            CharacterEdit::AliasAdd => {
                if has_room(&character.aliases) {
                    Step::Ask(Field::Alias)
                } else {
                    Step::TellMaxAliases
                }
            },
            CharacterEdit::AliasEdit(i) => Step::Show(Menu::AliasSelected(i)),
            CharacterEdit::AliasDelete(i) => {
                if i < character.aliases.len() {
                    Step::Show(Menu::ConfirmAliasDelete(i))
                } else {
                    Step::Show(Menu::Aliases)
                }
            },
            CharacterEdit::AliasDeleteConfirmed(i) => {
                if delete_alias(&mut character.aliases, i) {
                    Step::Store(Menu::Aliases)
                } else {
                    Step::Show(Menu::Aliases)
                }
            },
            CharacterEdit::AliasRename(_) => Step::Ask(Field::Alias),
            CharacterEdit::Photo => Step::Ask(Field::Photo),
            CharacterEdit::Gender => Step::Choose(Menu::Gender),
            CharacterEdit::Stars => Step::Choose(Menu::Stars),
        }
    }

    /// The buttons that are shown when the request is done with: the list
    /// of aliases after anything about aliases, else the menu of fields.
    pub open spec fn spec_menu_after(self) -> Menu {
        match self {
            CharacterEdit::AliasAdd => Menu::Aliases,
            CharacterEdit::AliasRename(_) => Menu::Aliases,
            CharacterEdit::AliasDeleteConfirmed(_) => Menu::Aliases,
            _ => Menu::Main,
        }
    }

    /// Says which buttons are shown when the request is done with.
    pub fn menu_after(&self) -> (out: Menu)
        ensures
            out == self.spec_menu_after(),
    {
        match self {
            CharacterEdit::AliasAdd => Menu::Aliases,
            CharacterEdit::AliasRename(_) => Menu::Aliases,
            CharacterEdit::AliasDeleteConfirmed(_) => Menu::Aliases,
            _ => Menu::Main,
        }
    }
}

/// What became of an answer.
#[derive(Clone, Copy, Debug, PartialEq, Eq, Structural)]
pub enum Answered {
    /// The record has the answer: store it, and say that the field was
    /// updated, or that an error occurred if storing fails.
    Stored,
    /// The answer cannot be an alias, for this reason; nothing changed.
    Unfit(AliasCheck),
    /// There is nothing to store and nothing to say.
    Nothing,
}

/// What a text answer comes to.
pub open spec fn spec_answered(edit: CharacterEdit, aliases: Seq<String>, text: &str) -> Answered {
    match edit {
        CharacterEdit::Name => Answered::Stored,
        CharacterEdit::ArtistName => Answered::Stored,
        CharacterEdit::ArtistLink => Answered::Stored,
        CharacterEdit::AliasAdd => match spec_check_alias(aliases, text) {
            AliasCheck::Fits => Answered::Stored,
            check => Answered::Unfit(check),
        },
        CharacterEdit::AliasRename(i) => match spec_renamed(aliases, i, text) {
            Renamed::Done => Answered::Stored,
            Renamed::Missing => Answered::Nothing,
            Renamed::Unfit(check) => Answered::Unfit(check),
        },
        _ => Answered::Nothing,
    }
}

/// Applies the text that an administrator sent for the field that `edit`
/// asked for. The name, the artist's name and the link take the text
/// trimmed. An alias must fit the rules for aliases, and is stored
/// trimmed. Every field but the one asked for stays as it was.
pub fn answer_text(edit: CharacterEdit, character: &mut Character, text: &str) -> (out: Answered)
    ensures
        out == spec_answered(edit, old(character).aliases@, text),
        match edit {
            CharacterEdit::Name => *final(character) == (Character {
                name: final(character).name,
                ..*old(character)
            }) && final(character).name@ == trimmed(text@),
            CharacterEdit::ArtistName => *final(character) == (Character {
                artist: final(character).artist,
                ..*old(character)
            }) && final(character).artist@ == trimmed(text@),
            CharacterEdit::ArtistLink => *final(character) == (Character {
                image_link: final(character).image_link,
                ..*old(character)
            }) && final(character).image_link@ == trimmed(text@),
            CharacterEdit::AliasAdd => *final(character) == (Character {
                aliases: final(character).aliases,
                ..*old(character)
            }) && if out == Answered::Stored {
                final(character).aliases@.len() == old(character).aliases@.len() + 1 && final(character).aliases@.last()@ == trimmed(text@) && final(character).aliases@.drop_last()
                    == old(character).aliases@
            } else {
                final(character).aliases@ == old(character).aliases@
            },
            CharacterEdit::AliasRename(i) => *final(character) == (Character {
                aliases: final(character).aliases,
                ..*old(character)
            }) && final(character).aliases@.len() == old(character).aliases@.len() && if out
                == Answered::Stored {
                final(character).aliases@[i as int]@ == trimmed(text@) && forall|k: int|
                    0 <= k < old(character).aliases@.len() && k != i ==> #[trigger] final(character).aliases@[k] == old(character).aliases@[k]
            } else {
                final(character).aliases@ == old(character).aliases@
            },
            _ => *final(character) == *old(character),
        },
{
    match edit {
        CharacterEdit::Name => {
            character.name = trim(text);
            Answered::Stored
        },
        CharacterEdit::ArtistName => {
            character.artist = trim(text);
            Answered::Stored
        },
        CharacterEdit::ArtistLink => {
            character.image_link = trim(text);
            Answered::Stored
        },
        CharacterEdit::AliasAdd => match add_alias(&mut character.aliases, text) {
            AliasCheck::Fits => Answered::Stored,
            check => Answered::Unfit(check),
        },
        CharacterEdit::AliasRename(i) => match rename_alias(&mut character.aliases, i, text) {
            Renamed::Done => Answered::Stored,
            Renamed::Missing => Answered::Nothing,
            Renamed::Unfit(check) => Answered::Unfit(check),
        },
        _ => Answered::Nothing,
    }
}

/// Applies the photo that an administrator sent: it becomes the image of
/// the character.
pub fn answer_photo(character: &mut Character, bytes: Vec<u8>)
    ensures
        *final(character) == (Character { image: Some(bytes), ..*old(character) }),
{
    character.image = Some(bytes);
}

/// The number of stars that a payload names, if it names one.
pub open spec fn stars_value(payload: Seq<char>) -> Option<u8> {
    match u64_value(payload) {
        Some(v) => if v <= u8::MAX {
            Some(v as u8)
        } else {
            None
        },
        None => None,
    }
}

/// Applies the button that an administrator pressed in a choice. A gender
/// is always taken; a number of stars only where the payload is a number
/// that fits. Says whether the record changed and is to be stored.
pub fn answer_choice(edit: CharacterEdit, character: &mut Character, payload: &str) -> (changed:
    bool)
    ensures
        match edit {
            CharacterEdit::Gender => changed && *final(character) == (Character {
                gender: Gender::spec_from_key(payload@),
                ..*old(character)
            }),
            CharacterEdit::Stars => match stars_value(payload@) {
                Some(stars) => changed && *final(character) == (Character {
                    stars,
                    ..*old(character)
                }),
                None => !changed && *final(character) == *old(character),
            },
            _ => !changed && *final(character) == *old(character),
        },
{
    match edit {
        CharacterEdit::Gender => {
            character.gender = Gender::from_key(payload);
            true
        },
        CharacterEdit::Stars => match parse_u64(payload) {
            Some(v) => {
                if v <= 255 {
                    character.stars = v as u8;
                    true
                } else {
                    false
                }
            },
            None => false,
        },
        _ => false,
    }
}

// ---------------------------------------------------------------------------
// What is shown
// ---------------------------------------------------------------------------

/// The word that payloads about characters start with.
pub open spec fn kind() -> Seq<char> {
    "char"@
}

/// The keys of the fields of a character, in the order of the menu.
pub open spec fn field_keys() -> Seq<Seq<char>> {
    seq!["name"@, "artist"@, "aliases"@, "photo"@, "gender"@, "stars"@]
}

fn write_field_keys() -> (out: Vec<String>)
    ensures
        views(out@) == field_keys(),
{
    let mut out: Vec<String> = Vec::new();
    out.push(String::from_str("name"));
    out.push(String::from_str("artist"));
    out.push(String::from_str("aliases"));
    out.push(String::from_str("photo"));
    out.push(String::from_str("gender"));
    out.push(String::from_str("stars"));
    assert(views(out@) =~= field_keys());
    out
}

/// The button of a number of stars: its bubble and the number, and the
/// number as payload.
pub open spec fn stars_face(stars: u8) -> (Seq<char>, Seq<char>) {
    (spec_bubble(stars) + " ("@ + decimal(stars as int) + ")"@, decimal(stars as int))
}

/// The buttons of the numbers of stars, 1 to 6.
pub open spec fn stars_faces() -> Seq<(Seq<char>, Seq<char>)> {
    Seq::new(6, |k: int| stars_face((k + 1) as u8))
}

fn write_stars_button(stars: u8) -> (out: Button)
    ensures
        face(out) == stars_face(stars),
{
    let number = u64_to_string(stars as u64);
    let mut text = String::from_str(bubble(stars));
    text.append(" (");
    text.append(number.as_str());
    text.append(")");
    button(text, number)
}

/// The genders to choose from.
pub open spec fn gender_menu(i18n: &I18n) -> Seq<Layout> {
    seq![
        Layout::Row(
            seq![
                (i18n.spec_get("male_button"@), "male"@),
                (i18n.spec_get("female_button"@), "female"@),
            ],
        ),
        Layout::Row(seq![(i18n.spec_get("other_button"@), "other"@)]),
    ]
}

/// The buttons of a menu of the editing dialog of `character`.
pub open spec fn spec_menu(i18n: &I18n, character: Character, menu: Menu) -> Seq<Layout> {
    match menu {
        Menu::Card => card_menu(i18n, kind(), character.id),
        Menu::Main => fields_menu(
            i18n,
            kind(),
            character.id,
            field_keys(),
            edit_data(kind(), character.id, " back"@),
        ),
        Menu::Artist => artist_menu(i18n, kind(), character.id),
        Menu::Aliases => aliases_menu(i18n, kind(), character.id, character.aliases@, None),
        Menu::AliasSelected(i) => aliases_menu(
            i18n,
            kind(),
            character.id,
            character.aliases@,
            Some(i),
        ),
        Menu::ConfirmAliasDelete(i) => confirm_alias_menu(i18n, kind(), character.id, i),
        Menu::Gender => gender_menu(i18n),
        Menu::Stars => seq![Layout::Grid(stars_faces(), 3)],
    }
}

/// Writes the buttons of a menu of the editing dialog.
pub fn write_menu(i18n: &I18n, character: &Character, menu: Menu) -> (out: Vec<Block>)
    ensures
        layouts(out@) == spec_menu(i18n, *character, menu),
{
    match menu {
        Menu::Card => write_card_menu(i18n, "char", character.id),
        Menu::Main => {
            let keys = write_field_keys();
            write_fields_menu(
                i18n,
                "char",
                character.id,
                &keys,
                write_edit_data("char", character.id, " back"),
            )
        },
        Menu::Artist => write_artist_menu(i18n, "char", character.id),
        Menu::Aliases => write_aliases_menu(i18n, "char", character.id, &character.aliases, None),
        Menu::AliasSelected(i) => write_aliases_menu(
            i18n,
            "char",
            character.id,
            &character.aliases,
            Some(i),
        ),
        Menu::ConfirmAliasDelete(i) => write_confirm_alias_menu(i18n, "char", character.id, i),
        Menu::Gender => {
            let male = labelled(i18n, "male_button", String::from_str("male"));
            let female = labelled(i18n, "female_button", String::from_str("female"));
            let other = labelled(i18n, "other_button", String::from_str("other"));
            let mut out: Vec<Block> = Vec::new();
            out.push(pair(male, female));
            out.push(single(other));
            assert(layouts(out@) =~= gender_menu(i18n));
            out
        },
        Menu::Stars => {
            let mut buttons: Vec<Button> = Vec::new();
            let mut stars: u8 = 1;
            while stars <= 6
                invariant
                    1 <= stars <= 7,
                    buttons@.len() == stars - 1,
                    forall|k: int|
                        0 <= k < stars - 1 ==> face(#[trigger] buttons@[k]) == stars_face(
                            (k + 1) as u8,
                        ),
                decreases 7 - stars,
            {
                buttons.push(write_stars_button(stars));
                stars = stars + 1;
            }
            assert(faces(buttons@) =~= stars_faces());
            let mut out: Vec<Block> = Vec::new();
            out.push(grid(buttons, 3));
            assert(layouts(out@) =~= seq![Layout::Grid(stars_faces(), 3)]);
            out
        },
    }
}

/// The card of a character for administrators: the text `character_info`
/// with the number, the symbol of the gender, the name and the bubble of
/// the stars filled in, in this order.
pub open spec fn spec_card(i18n: &I18n, character: Character) -> Seq<char> {
    let with_id = replaced(
        i18n.spec_get("character_info"@),
        "{id}"@,
        decimal(character.id as int),
    );
    let with_gender = replaced(with_id, "{gender}"@, spec_gender_symbol(character.gender));
    let with_name = replaced(with_gender, "{name}"@, character.name@);
    replaced(with_name, "{bubble}"@, spec_bubble(character.stars))
}

/// Writes the card of a character for administrators.
pub fn card(i18n: &I18n, character: &Character) -> (out: String)
    ensures
        out@ == spec_card(i18n, *character),
{
    let template = i18n.get("character_info");
    let number = i64_to_string(character.id);
    let with_id = replace(template.as_str(), "{id}", number.as_str());
    let with_gender = replace(with_id.as_str(), "{gender}", gender_symbol(&character.gender));
    let with_name = replace(with_gender.as_str(), "{name}", character.name.as_str());
    replace(with_name.as_str(), "{bubble}", bubble(character.stars))
}

/// The text above a menu; `None` where the text that is there stays.
pub open spec fn spec_menu_text(i18n: &I18n, character: Character, menu: Menu) -> Option<
    Seq<char>,
> {
    match menu {
        Menu::Card => None,
        Menu::Main => Some(spec_card(i18n, character)),
        Menu::ConfirmAliasDelete(i) => if i < character.aliases@.len() {
            Some(spec_confirm_delete(i18n, "alias"@, character.aliases@[i as int]@))
        } else {
            None
        },
        _ => Some(i18n.spec_get("select_button"@)),
    }
}

/// Writes the text above a menu: the card above the fields, the question
/// above a confirmation, else the request to choose a button.
pub fn menu_text(i18n: &I18n, character: &Character, menu: Menu) -> (out: Option<String>)
    ensures
        match out {
            Some(text) => spec_menu_text(i18n, *character, menu) == Some(text@),
            None => spec_menu_text(i18n, *character, menu) is None,
        },
{
    match menu {
        Menu::Card => None,
        Menu::Main => Some(card(i18n, character)),
        Menu::ConfirmAliasDelete(i) => {
            if i < character.aliases.len() {
                Some(confirm_delete(i18n, "alias", character.aliases[i].as_str()))
            } else {
                None
            }
        },
        _ => Some(i18n.get("select_button")),
    }
}

// ---------------------------------------------------------------------------
// Adding a character
// ---------------------------------------------------------------------------

/// The number of the character that is added after the one numbered
/// `last_id`; with no character yet, the count starts behind 1.
pub open spec fn next_id(last_id: Option<i64>) -> int {
    match last_id {
        Some(id) => id + 1,
        None => 2,
    }
}

/// A new character named `name`, trimmed, with one star, numbered behind
/// `last_id`. `None` where no number is left.
pub fn new_character(last_id: Option<i64>, name: &str) -> (out: Option<Character>)
    ensures
        match out {
            Some(character) => {
                &&& character.id == next_id(last_id)
                &&& character.name@ == trimmed(name@)
                &&& character.stars == 1
                &&& character.image is None
                &&& character.gender == Gender::Male
                &&& character.artist@.len() == 0
                &&& character.aliases@.len() == 0
                &&& character.liked_by@.len() == 0
                &&& character.series_id == 0
                &&& character.image_link@.len() == 0
                &&& character.anilist_id is None
            },
            None => next_id(last_id) > i64::MAX,
        },
{
    let last = match last_id {
        Some(id) => id,
        None => 1,
    };
    if last == i64::MAX {
        return None;
    }
    let mut character = Character::default();
    character.id = last + 1;
    character.name = trim(name);
    character.stars = 1;
    Some(character)
}

/// Where the dialog that adds a character stands.
#[derive(Clone, Copy, Debug, PartialEq, Eq, Structural)]
pub enum AddStage {
    /// The name was asked for.
    AwaitingName,
    /// The character `id` exists and its photo was asked for.
    AwaitingPhoto { id: i64 },
    /// The dialog is over.
    Done,
}

/// What the caller does when an answer came, or none in time.
#[derive(Clone, Copy, Debug, PartialEq, Eq, Structural)]
pub enum AddAction {
    /// Create the character from the name with `new_character`, store it,
    /// say that it was created, show its card and ask for the photo.
    Create,
    /// Store the photo with `answer_photo` and show the card with the
    /// photo and a button to go on editing.
    AttachPhoto { id: i64 },
    /// Say that the operation was cancelled.
    Cancel,
    /// Say that the operation was cancelled and delete the character,
    /// which has no photo.
    CancelAndDelete { id: i64 },
    /// Nothing.
    Nothing,
}

/// What follows in the dialog that adds a character: `answered` says
/// whether the answer came in time.
pub open spec fn spec_add_next(stage: AddStage, answered: bool) -> AddAction {
    match stage {
        AddStage::AwaitingName => if answered {
            AddAction::Create
        } else {
            AddAction::Cancel
        },
        AddStage::AwaitingPhoto { id } => if answered {
            AddAction::AttachPhoto { id }
        } else {
            AddAction::CancelAndDelete { id }
        },
        AddStage::Done => AddAction::Nothing,
    }
}

/// Says what follows in the dialog that adds a character. After the name
/// the photo is asked for; after the photo, and after any silence, the
/// dialog is over. `created` is the number of the character made from the
/// name, if making it worked.
pub fn add_next(stage: AddStage, answered: bool, created: Option<i64>) -> (out: (
    AddStage,
    AddAction,
))
    ensures
        out.1 == spec_add_next(stage, answered),
        out.0 == match (stage, answered, created) {
            (AddStage::AwaitingName, true, Some(id)) => AddStage::AwaitingPhoto { id },
            _ => AddStage::Done,
        },
{
    match stage {
        AddStage::AwaitingName => {
            if answered {
                match created {
                    Some(id) => (AddStage::AwaitingPhoto { id }, AddAction::Create),
                    None => (AddStage::Done, AddAction::Create),
                }
            } else {
                (AddStage::Done, AddAction::Cancel)
            }
        },
        AddStage::AwaitingPhoto { id } => {
            if answered {
                (AddStage::Done, AddAction::AttachPhoto { id })
            } else {
                (AddStage::Done, AddAction::CancelAndDelete { id })
            }
        },
        AddStage::Done => (AddStage::Done, AddAction::Nothing),
    }
}

/// The name of the file that holds the photo of character `id`.
pub fn photo_file_name(id: i64) -> (out: String)
    ensures
        out@ == spec_numbered("char_"@, id as int, ".jpg"@),
{
    numbered("char_", id, ".jpg")
}

/// A card with an invisible link to the administrator who made it.
pub open spec fn spec_signed(text: Seq<char>, sender_id: i64) -> Seq<char> {
    text + spec_numbered("<a href='tg://user?id="@, sender_id as int, "'>ㅤ</a>"@)
}

/// Writes a card with an invisible link to the administrator who made it.
pub fn signed(text: &str, sender_id: i64) -> (out: String)
    ensures
        out@ == spec_signed(text@, sender_id),
{
    let mut out = String::from_str(text);
    out.append(numbered("<a href='tg://user?id=", sender_id, "'>ㅤ</a>").as_str());
    out
}

/// The button that goes on to edit the character that was added.
pub fn continue_menu(i18n: &I18n, id: i64) -> (out: Vec<Block>)
    ensures
        layouts(out@) == seq![
            Layout::Row(
                seq![
                    (
                        i18n.spec_get("continue_button"@),
                        edit_data(kind(), id, Seq::<char>::empty()),
                    ),
                ],
            ),
        ],
{
    proof {
        reveal_strlit("");
        assert(""@ =~= Seq::<char>::empty());
    }
    let go_on = labelled(i18n, "continue_button", write_edit_data("char", id, ""));
    let mut out: Vec<Block> = Vec::new();
    out.push(single(go_on));
    assert(layouts(out@) =~= seq![
        Layout::Row(
            seq![(i18n.spec_get("continue_button"@), edit_data(kind(), id, Seq::<char>::empty()))],
        ),
    ]);
    out
}

// ---------------------------------------------------------------------------
// Deleting a character
// ---------------------------------------------------------------------------

/// What a payload that asks to delete says: the number of the record and
/// whether the deletion is confirmed.
pub open spec fn spec_parse_delete(parts: Seq<Seq<char>>) -> Option<(i64, bool)> {
    if parts.len() < 3 {
        None
    } else {
        match i64_value(parts[2]) {
            Some(id) => Some((id, parts.len() == 4 && parts[3] == "confirm"@)),
            None => None,
        }
    }
}

/// Reads a payload that asks to delete a record, split into words.
pub fn parse_delete(parts: &Vec<String>) -> (out: Option<(i64, bool)>)
    ensures
        out == spec_parse_delete(views(parts@)),
{
    if parts.len() < 3 {
        return None;
    }
    match parse_i64(parts[2].as_str()) {
        Some(id) => Some((id, parts.len() == 4 && same_text(parts[3].as_str(), "confirm"))),
        None => None,
    }
}

/// What the bot does about a request to delete a record.
#[derive(Clone, Copy, Debug, PartialEq, Eq, Structural)]
pub enum DeleteStep {
    /// Delete the record and say so.
    Delete,
    /// Say that the record is unknown, then ask whether to delete it.
    TellUnknownThenAsk,
    /// Ask whether to delete it.
    Ask,
}

/// Says what the bot does about a request to delete a record: a confirmed
/// request deletes a record that exists.
pub fn delete_step(confirmed: bool, found: bool) -> (out: DeleteStep)
    ensures
        out == if confirmed && found {
            DeleteStep::Delete
        } else if confirmed {
            DeleteStep::TellUnknownThenAsk
        } else {
            DeleteStep::Ask
        },
{
    if confirmed {
        if found {
            DeleteStep::Delete
        } else {
            DeleteStep::TellUnknownThenAsk
        }
    } else {
        DeleteStep::Ask
    }
}

// ---------------------------------------------------------------------------
// Listing the characters
// ---------------------------------------------------------------------------

/// The name of the file that the list is sent as where it is too long for
/// a message.
pub const LIST_FILE_NAME: &'static str = "characters.txt";

/// The caption of that file.
pub const LIST_FILE_CAPTION: &'static str = "Lista de personagens";

/// The line of a character in the list.
pub open spec fn table_row(character: Character) -> Seq<char> {
    "\n"@ + decimal(character.id as int) + " | "@ + character.name@ + " | "@ + decimal(
        character.stars as int,
    ) + " | "@ + character.gender.spec_name()
}

/// The lines of `characters`, one after the other.
pub open spec fn table_rows(characters: Seq<Character>) -> Seq<char>
    decreases characters.len(),
{
    if characters.len() == 0 {
        Seq::<char>::empty()
    } else {
        table_rows(characters.drop_last()) + table_row(characters.last())
    }
}

/// The list of all characters: a heading, then a line for each.
pub open spec fn spec_table(characters: Seq<Character>) -> Seq<char> {
    "id | name | stars | gender\n"@ + table_rows(characters)
}

fn write_table_row(character: &Character) -> (out: String)
    ensures
        out@ == table_row(*character),
{
    let mut out = String::from_str("\n");
    out.append(i64_to_string(character.id).as_str());
    out.append(" | ");
    out.append(character.name.as_str());
    out.append(" | ");
    out.append(u64_to_string(character.stars as u64).as_str());
    out.append(" | ");
    out.append(character.gender.name().as_str());
    out
}

/// Writes the list of all characters.
pub fn table(characters: &Vec<Character>) -> (out: String)
    ensures
        out@ == spec_table(characters@),
{
    let mut out = String::from_str("id | name | stars | gender\n");
    let ghost head = out@;
    let mut i: usize = 0;
    assert(characters@.take(0) =~= Seq::<Character>::empty());
    assert(head + Seq::<char>::empty() =~= head);
    while i < characters.len()
        invariant
            i <= characters@.len(),
            head == "id | name | stars | gender\n"@,
            out@ == head + table_rows(characters@.take(i as int)),
        decreases characters.len() - i,
    {
        let ghost before = characters@.take(i as int);
        let ghost after = characters@.take(i + 1);
        assert(after.drop_last() =~= before);
        assert(after.last() == characters@[i as int]);
        let row = write_table_row(&characters[i]);
        out.append(row.as_str());
        assert(out@ =~= head + (table_rows(before) + row@));
        i = i + 1;
    }
    assert(characters@.take(characters@.len() as int) =~= characters@);
    out
}

} // verus!
