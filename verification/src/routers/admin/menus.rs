//! The buttons that the editing dialogs of characters and of series share.
//!
//! The payload of a button starts with the kind of record, `char` or
//! `series`, then says what to do, then names the record.

use crate::modules::i18n::I18n;
use crate::routers::keyboard::{
    button, face, grid, indexed, layout, layouts, numbered, pair, single, spec_numbered, triple,
    Block, Button, Layout,
};
use vstd::prelude::*;
use vstd::string::*;

verus! {

/// What a button shows and sends back.
pub type Face = (Seq<char>, Seq<char>);

/// The payload that asks to edit record `id` of kind `kind`, followed by
/// `tail`.
pub open spec fn edit_data(kind: Seq<char>, id: i64, tail: Seq<char>) -> Seq<char> {
    spec_numbered(kind + " edit "@, id as int, tail)
}

/// The payload that asks to delete record `id` of kind `kind`, followed by
/// `tail`.
pub open spec fn delete_data(kind: Seq<char>, id: i64, tail: Seq<char>) -> Seq<char> {
    spec_numbered(kind + " delete "@, id as int, tail)
}

/// Writes the payload that asks to edit record `id`, followed by `tail`.
pub fn write_edit_data(kind: &str, id: i64, tail: &str) -> (out: String)
    ensures
        out@ == edit_data(kind@, id, tail@),
{
    let mut head = String::from_str(kind);
    head.append(" edit ");
    numbered(head.as_str(), id, tail)
}

/// Writes the payload that asks to delete record `id`, followed by `tail`.
pub fn write_delete_data(kind: &str, id: i64, tail: &str) -> (out: String)
    ensures
        out@ == delete_data(kind@, id, tail@),
{
    let mut head = String::from_str(kind);
    head.append(" delete ");
    numbered(head.as_str(), id, tail)
}

/// A button that shows the text under `key`.
pub fn labelled(i18n: &I18n, key: &str, data: String) -> (out: Button)
    ensures
        face(out) == (i18n.spec_get(key@), data@),
{
    button(i18n.get(key), data)
}

/// The text under `key` with a pencil behind it.
pub open spec fn pencilled(i18n: &I18n, key: Seq<char>) -> Seq<char> {
    i18n.spec_get(key) + " ✏"@
}

/// A button that shows the text under `key` with a pencil behind it.
pub fn pencil(i18n: &I18n, key: &str, data: String) -> (out: Button)
    ensures
        face(out) == (pencilled(i18n, key@), data@),
{
    let mut text = i18n.get(key);
    text.append(" ✏");
    button(text, data)
}

/// The button that edits the field whose name is under `key`: it sends the
/// key back behind the record.
pub open spec fn field_face(i18n: &I18n, kind: Seq<char>, id: i64, key: Seq<char>) -> Face {
    (pencilled(i18n, key), edit_data(kind, id, " "@ + key))
}

/// Writes the button that edits the field whose name is under `key`.
pub fn field_button(i18n: &I18n, kind: &str, id: i64, key: &str) -> (out: Button)
    ensures
        face(out) == field_face(i18n, kind@, id, key@),
{
    let mut tail = String::from_str(" ");
    tail.append(key);
    pencil(i18n, key, write_edit_data(kind, id, tail.as_str()))
}

/// The buttons under the card of a record: edit and delete.
pub open spec fn card_menu(i18n: &I18n, kind: Seq<char>, id: i64) -> Seq<Layout> {
    seq![
        Layout::Row(
            seq![
                (i18n.spec_get("edit_button"@), edit_data(kind, id, Seq::<char>::empty())),
                (i18n.spec_get("delete_button"@), delete_data(kind, id, Seq::<char>::empty())),
            ],
        ),
    ]
}

/// Writes the buttons under the card of a record.
pub fn write_card_menu(i18n: &I18n, kind: &str, id: i64) -> (out: Vec<Block>)
    ensures
        layouts(out@) == card_menu(i18n, kind@, id),
{
    proof {
        reveal_strlit("");
        assert(""@ =~= Seq::<char>::empty());
    }
    let edit = labelled(i18n, "edit_button", write_edit_data(kind, id, ""));
    let delete = labelled(i18n, "delete_button", write_delete_data(kind, id, ""));
    let mut out: Vec<Block> = Vec::new();
    out.push(pair(edit, delete));
    assert(layouts(out@) =~= card_menu(i18n, kind@, id));
    out
}

/// The fields of a record, two to a row, and a button that leads back and
/// sends `back`.
pub open spec fn fields_menu(
    i18n: &I18n,
    kind: Seq<char>,
    id: i64,
    keys: Seq<Seq<char>>,
    back: Seq<char>,
) -> Seq<Layout> {
    seq![
        Layout::Grid(Seq::new(keys.len(), |k: int| field_face(i18n, kind, id, keys[k])), 2),
        Layout::Row(seq![(i18n.spec_get("back_button"@), back)]),
    ]
}

/// Writes the menu of the fields whose names are under `keys`.
pub fn write_fields_menu(i18n: &I18n, kind: &str, id: i64, keys: &Vec<String>, back: String) -> (out:
    Vec<Block>)
    ensures
        layouts(out@) == fields_menu(i18n, kind@, id, crate::text::views(keys@), back@),
{
    let ghost names = crate::text::views(keys@);
    let mut buttons: Vec<Button> = Vec::new();
    let mut k: usize = 0;
    while k < keys.len()
        invariant
            k <= keys@.len(),
            names == crate::text::views(keys@),
            buttons@.len() == k,
            forall|j: int|
                0 <= j < k ==> face(#[trigger] buttons@[j]) == field_face(i18n, kind@, id, names[j]),
        decreases keys.len() - k,
    {
        buttons.push(field_button(i18n, kind, id, keys[k].as_str()));
        k = k + 1;
    }
    assert(crate::routers::keyboard::faces(buttons@) =~= Seq::new(
        names.len(),
        |k: int| field_face(i18n, kind@, id, names[k]),
    ));
    let mut out: Vec<Block> = Vec::new();
    out.push(grid(buttons, 2));
    out.push(single(labelled(i18n, "back_button", back)));
    assert(layouts(out@) =~= fields_menu(i18n, kind@, id, names, back@));
    out
}

/// What can be edited of the artist: the name and the link, and a button
/// that leads back to the fields.
pub open spec fn artist_menu(i18n: &I18n, kind: Seq<char>, id: i64) -> Seq<Layout> {
    seq![
        Layout::Row(
            seq![
                (pencilled(i18n, "name"@), edit_data(kind, id, " artist name"@)),
                (pencilled(i18n, "link"@), edit_data(kind, id, " artist link"@)),
            ],
        ),
        Layout::Row(
            seq![(i18n.spec_get("back_button"@), edit_data(kind, id, Seq::<char>::empty()))],
        ),
    ]
}

/// Writes the menu of what can be edited of the artist.
pub fn write_artist_menu(i18n: &I18n, kind: &str, id: i64) -> (out: Vec<Block>)
    ensures
        layouts(out@) == artist_menu(i18n, kind@, id),
{
    proof {
        reveal_strlit("");
        assert(""@ =~= Seq::<char>::empty());
    }
    let name = pencil(i18n, "name", write_edit_data(kind, id, " artist name"));
    let link = pencil(i18n, "link", write_edit_data(kind, id, " artist link"));
    let back = labelled(i18n, "back_button", write_edit_data(kind, id, ""));
    let mut out: Vec<Block> = Vec::new();
    out.push(pair(name, link));
    out.push(single(back));
    assert(layouts(out@) =~= artist_menu(i18n, kind@, id));
    out
}

/// The payload that is about the alias at `index`: `verb` says what, and
/// `tail` follows the place.
pub open spec fn alias_data(
    kind: Seq<char>,
    id: i64,
    verb: Seq<char>,
    index: usize,
    tail: Seq<char>,
) -> Seq<char> {
    spec_numbered(edit_data(kind, id, " aliases "@ + verb + " "@), index as int, tail)
}

/// Writes the payload that is about the alias at `index`.
pub fn write_alias_data(kind: &str, id: i64, verb: &str, index: usize, tail: &str) -> (out: String)
    ensures
        out@ == alias_data(kind@, id, verb@, index, tail@),
{
    let mut middle = String::from_str(" aliases ");
    middle.append(verb);
    middle.append(" ");
    let head = write_edit_data(kind, id, middle.as_str());
    indexed(head.as_str(), index, tail)
}

/// The row of the alias at `index`: the alias itself, or, where it is the
/// selected one, what can be done with it.
pub open spec fn alias_row(
    i18n: &I18n,
    kind: Seq<char>,
    id: i64,
    aliases: Seq<String>,
    index: int,
    selected: Option<usize>,
) -> Layout {
    if selected == Some(index as usize) {
        Layout::Row(
            seq![
                (
                    i18n.spec_get("rename_button"@),
                    alias_data(kind, id, "rename"@, index as usize, Seq::<char>::empty()),
                ),
                (i18n.spec_get("cancel_button"@), edit_data(kind, id, " aliases"@)),
                (
                    i18n.spec_get("delete_button"@),
                    alias_data(kind, id, "delete"@, index as usize, Seq::<char>::empty()),
                ),
            ],
        )
    } else {
        Layout::Row(
            seq![
                (
                    aliases[index]@,
                    alias_data(kind, id, "edit"@, index as usize, Seq::<char>::empty()),
                ),
            ],
        )
    }
}

/// The aliases of a record, one to a row, then a button that adds one and
/// a button that leads back to the fields.
pub open spec fn aliases_menu(
    i18n: &I18n,
    kind: Seq<char>,
    id: i64,
    aliases: Seq<String>,
    selected: Option<usize>,
) -> Seq<Layout> {
    Seq::new(aliases.len(), |i: int| alias_row(i18n, kind, id, aliases, i, selected)) + seq![
        Layout::Row(seq![(i18n.spec_get("add_button"@), edit_data(kind, id, " aliases add"@))]),
        Layout::Row(
            seq![(i18n.spec_get("back_button"@), edit_data(kind, id, Seq::<char>::empty()))],
        ),
    ]
}

/// Writes the list of aliases. Where `selected` is a place in the list,
/// the row there offers to rename the alias, to leave it, or to delete it.
pub fn write_aliases_menu(
    i18n: &I18n,
    kind: &str,
    id: i64,
    aliases: &Vec<String>,
    selected: Option<usize>,
) -> (out: Vec<Block>)
    ensures
        layouts(out@) == aliases_menu(i18n, kind@, id, aliases@, selected),
{
    proof {
        reveal_strlit("");
        assert(""@ =~= Seq::<char>::empty());
    }
    let mut out: Vec<Block> = Vec::new();
    let mut i: usize = 0;
    while i < aliases.len()
        invariant
            i <= aliases@.len(),
            ""@ == Seq::<char>::empty(),
            out@.len() == i,
            forall|j: int|
                0 <= j < i ==> layout(#[trigger] out@[j]) == alias_row(
                    i18n,
                    kind@,
                    id,
                    aliases@,
                    j,
                    selected,
                ),
        decreases aliases.len() - i,
    {
        let chosen = match selected {
            Some(s) => s == i,
            None => false,
        };
        if chosen {
            let rename = labelled(i18n, "rename_button", write_alias_data(kind, id, "rename", i, ""));
            let cancel = labelled(i18n, "cancel_button", write_edit_data(kind, id, " aliases"));
            let delete = labelled(i18n, "delete_button", write_alias_data(kind, id, "delete", i, ""));
            out.push(triple(rename, cancel, delete));
        } else {
            let show = button(
                String::from_str(aliases[i].as_str()),
                write_alias_data(kind, id, "edit", i, ""),
            );
            out.push(single(show));
        }
        i = i + 1;
    }
    let ghost rows = layouts(out@);
    assert(rows =~= Seq::new(
        aliases@.len(),
        |i: int| alias_row(i18n, kind@, id, aliases@, i, selected),
    ));
    let add = labelled(i18n, "add_button", write_edit_data(kind, id, " aliases add"));
    let back = labelled(i18n, "back_button", write_edit_data(kind, id, ""));
    out.push(single(add));
    out.push(single(back));
    assert(layouts(out@) =~= aliases_menu(i18n, kind@, id, aliases@, selected));
    out
}

/// The buttons under the question whether to delete the alias at `index`:
/// cancel, which leads back to the list, and confirm.
pub open spec fn confirm_alias_menu(i18n: &I18n, kind: Seq<char>, id: i64, index: usize) -> Seq<
    Layout,
> {
    seq![
        Layout::Row(
            seq![
                (i18n.spec_get("cancel_button"@), edit_data(kind, id, " aliases"@)),
                (
                    i18n.spec_get("confirm_button"@),
                    alias_data(kind, id, "delete"@, index, " confirm"@),
                ),
            ],
        ),
    ]
}

/// Writes the buttons under the question whether to delete an alias.
pub fn write_confirm_alias_menu(i18n: &I18n, kind: &str, id: i64, index: usize) -> (out: Vec<Block>)
    ensures
        layouts(out@) == confirm_alias_menu(i18n, kind@, id, index),
{
    let cancel = labelled(i18n, "cancel_button", write_edit_data(kind, id, " aliases"));
    let confirm = labelled(
        i18n,
        "confirm_button",
        write_alias_data(kind, id, "delete", index, " confirm"),
    );
    let mut out: Vec<Block> = Vec::new();
    out.push(pair(cancel, confirm));
    assert(layouts(out@) =~= confirm_alias_menu(i18n, kind@, id, index));
    out
}

/// The buttons under the question whether to delete a record: cancel,
/// which leads back to the card, and confirm.
pub open spec fn confirm_delete_menu(i18n: &I18n, kind: Seq<char>, id: i64) -> Seq<Layout> {
    seq![
        Layout::Row(
            seq![
                (i18n.spec_get("cancel_button"@), edit_data(kind, id, " back"@)),
                (i18n.spec_get("confirm_button"@), delete_data(kind, id, " confirm"@)),
            ],
        ),
    ]
}

/// Writes the buttons under the question whether to delete a record.
pub fn write_confirm_delete_menu(i18n: &I18n, kind: &str, id: i64) -> (out: Vec<Block>)
    ensures
        layouts(out@) == confirm_delete_menu(i18n, kind@, id),
{
    let cancel = labelled(i18n, "cancel_button", write_edit_data(kind, id, " back"));
    let confirm = labelled(i18n, "confirm_button", write_delete_data(kind, id, " confirm"));
    let mut out: Vec<Block> = Vec::new();
    out.push(pair(cancel, confirm));
    assert(layouts(out@) =~= confirm_delete_menu(i18n, kind@, id));
    out
}

} // verus!
