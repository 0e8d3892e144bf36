//! Buttons under a message.

use crate::text::{decimal, i64_to_string, same_text, u64_to_string};
use vstd::prelude::*;
use vstd::string::*;

verus! {

/// A button: what it shows, and what pressing it sends back.
#[derive(Clone, Debug)]
pub struct Button {
    pub text: String,
    pub data: String,
}

/// A part of a keyboard.
#[derive(Clone, Debug)]
pub enum Block {
    /// One row, as it is.
    Row(Vec<Button>),
    /// Buttons to be laid out in rows of `width`.
    Grid { buttons: Vec<Button>, width: usize },
}

/// What a button shows and sends back.
pub open spec fn face(button: Button) -> (Seq<char>, Seq<char>) {
    (button.text@, button.data@)
}

/// What each of a list of buttons shows and sends back.
pub open spec fn faces(buttons: Seq<Button>) -> Seq<(Seq<char>, Seq<char>)> {
    Seq::new(buttons.len(), |i: int| face(buttons[i]))
}

/// Whether a block is the row of buttons `row`.
pub open spec fn is_row(block: Block, row: Seq<(Seq<char>, Seq<char>)>) -> bool {
    block matches Block::Row(buttons) && faces(buttons@) == row
}

/// Whether a block is the grid of `buttons`, `width` to a row.
pub open spec fn is_grid(block: Block, buttons: Seq<(Seq<char>, Seq<char>)>, width: nat) -> bool {
    block matches Block::Grid { buttons: b, width: w } && faces(b@) == buttons && w == width
}

/// What a block of a keyboard holds.
pub enum Layout {
    Row(Seq<(Seq<char>, Seq<char>)>),
    Grid(Seq<(Seq<char>, Seq<char>)>, nat),
}

/// What a block holds.
pub open spec fn layout(block: Block) -> Layout {
    match block {
        Block::Row(buttons) => Layout::Row(faces(buttons@)),
        Block::Grid { buttons, width } => Layout::Grid(faces(buttons@), width as nat),
    }
}

/// What each block of a keyboard holds.
pub open spec fn layouts(blocks: Seq<Block>) -> Seq<Layout> {
    Seq::new(blocks.len(), |i: int| layout(blocks[i]))
}

/// A button that shows `text` and sends back `data`.
pub fn button(text: String, data: String) -> (out: Button)
    ensures
        face(out) == (text@, data@),
{
    Button { text, data }
}

/// A row of one button.
pub fn single(b: Button) -> (out: Block)
    ensures
        is_row(out, seq![face(b)]),
        layout(out) == Layout::Row(seq![face(b)]),
{
    let ghost f = face(b);
    let mut row: Vec<Button> = Vec::new();
    row.push(b);
    assert(faces(row@) =~= seq![f]);
    Block::Row(row)
}

/// A row of two buttons.
pub fn pair(a: Button, b: Button) -> (out: Block)
    ensures
        is_row(out, seq![face(a), face(b)]),
        layout(out) == Layout::Row(seq![face(a), face(b)]),
{
    let ghost fa = face(a);
    let ghost fb = face(b);
    let mut row: Vec<Button> = Vec::new();
    row.push(a);
    row.push(b);
    assert(faces(row@) =~= seq![fa, fb]);
    Block::Row(row)
}

/// A row of three buttons.
pub fn triple(a: Button, b: Button, c: Button) -> (out: Block)
    ensures
        is_row(out, seq![face(a), face(b), face(c)]),
        layout(out) == Layout::Row(seq![face(a), face(b), face(c)]),
{
    let ghost fa = face(a);
    let ghost fb = face(b);
    let ghost fc = face(c);
    let mut row: Vec<Button> = Vec::new();
    row.push(a);
    row.push(b);
    row.push(c);
    assert(faces(row@) =~= seq![fa, fb, fc]);
    Block::Row(row)
}

/// A grid of `buttons`, `width` to a row.
pub fn grid(buttons: Vec<Button>, width: usize) -> (out: Block)
    ensures
        is_grid(out, faces(buttons@), width as nat),
        layout(out) == Layout::Grid(faces(buttons@), width as nat),
{
    Block::Grid { buttons, width }
}

/// Whether `payload` is one of `accepted`.
pub fn is_among(payload: &str, accepted: &Vec<String>) -> (out: bool)
    ensures
        out == exists|i: int| 0 <= i < accepted@.len() && (#[trigger] accepted@[i])@ == payload@,
{
    let mut i: usize = 0;
    while i < accepted.len()
        invariant
            i <= accepted@.len(),
            forall|k: int| 0 <= k < i ==> (#[trigger] accepted@[k])@ != payload@,
        decreases accepted.len() - i,
    {
        if same_text(accepted[i].as_str(), payload) {
            assert(accepted@[i as int]@ == payload@);
            return true;
        }
        i = i + 1;
    }
    false
}

/// A payload that ends in a number: `head`, the number, `tail`.
pub open spec fn spec_numbered(head: Seq<char>, number: int, tail: Seq<char>) -> Seq<char> {
    head + decimal(number) + tail
}

/// Writes a payload that names a record: `head`, the number `id`, `tail`.
pub fn numbered(head: &str, id: i64, tail: &str) -> (out: String)
    ensures
        out@ == spec_numbered(head@, id as int, tail@),
{
    let mut out = String::from_str(head);
    out.append(i64_to_string(id).as_str());
    out.append(tail);
    out
}

/// Writes a payload that names a place in a list: `head`, the number
/// `index`, `tail`.
pub fn indexed(head: &str, index: usize, tail: &str) -> (out: String)
    ensures
        out@ == spec_numbered(head@, index as int, tail@),
{
    let mut out = String::from_str(head);
    out.append(u64_to_string(index as u64).as_str());
    out.append(tail);
    out
}

} // verus!
