//! Turning pages.
//!
//! A list that does not fit under one message is shown page by page. The
//! buttons under a page send back where to go: a payload that ends in the
//! number of the page.

use crate::routers::keyboard::{button, face, faces, indexed, spec_numbered, Button};
use crate::text::{i64_value, parse_i64, views};
use vstd::prelude::*;
use vstd::string::*;

verus! {

/// What a button shows and sends back.
pub type Face = (Seq<char>, Seq<char>);

/// The button that leads to page `page`.
pub open spec fn turn_face(arrow: Seq<char>, head: Seq<char>, page: int) -> Face {
    (arrow, spec_numbered(head, page, Seq::<char>::empty()))
}

/// The buttons under page `index` of `total`: back, unless the page is the
/// first, and on, unless it is the last. With `with_ends`, a button to the
/// first page stands before them where that is more than one page back,
/// and a button to the last page behind them where that is more than one
/// page on.
pub open spec fn pager(head: Seq<char>, index: int, total: int, with_ends: bool) -> Seq<Face> {
    (if index > 1 && with_ends && index > 2 {
        seq![turn_face("⏪"@, head, 1)]
    } else {
        Seq::<Face>::empty()
    }) + (if index > 1 {
        seq![turn_face("⬅"@, head, index - 1)]
    } else {
        Seq::<Face>::empty()
    }) + (if index < total {
        seq![turn_face("➡"@, head, index + 1)]
    } else {
        Seq::<Face>::empty()
    }) + (if index < total && with_ends && index < total - 1 {
        seq![turn_face("⏩"@, head, total)]
    } else {
        Seq::<Face>::empty()
    })
}

fn turn(arrow: &str, head: &str, page: usize) -> (out: Button)
    ensures
        face(out) == turn_face(arrow@, head@, page as int),
{
    proof {
        reveal_strlit("");
        assert(""@ =~= Seq::<char>::empty());
    }
    button(String::from_str(arrow), indexed(head, page, ""))
}

/// Writes the buttons under page `index` of `total`. `head` is the payload
/// up to the number of the page.
pub fn write_pager(head: &str, index: usize, total: usize, with_ends: bool) -> (out: Vec<Button>)
    ensures
        faces(out@) == pager(head@, index as int, total as int, with_ends),
{
    let mut out: Vec<Button> = Vec::new();
    let ghost e = Seq::<Face>::empty();
    assert(faces(out@) =~= e);
    if index > 1 {
        if with_ends && index > 2 {
            out.push(turn("⏪", head, 1));
        }
        out.push(turn("⬅", head, index - 1));
    }
    let ghost left = faces(out@);
    assert(left =~= (if index > 1 && with_ends && index > 2 {
        seq![turn_face("⏪"@, head@, 1)]
    } else {
        e
    }) + (if index > 1 {
        seq![turn_face("⬅"@, head@, index - 1)]
    } else {
        e
    }));
    if index < total {
        out.push(turn("➡", head, index + 1));
        if with_ends && index < total - 1 {
            out.push(turn("⏩", head, total));
        }
    }
    assert(faces(out@) =~= pager(head@, index as int, total as int, with_ends));
    out
}

/// The page that a payload asks for, for the user `sender_id`. `user_at`
/// is the place of the word that names the user whom the buttons belong
/// to; the word behind it names the page. `None` where the buttons belong
/// to somebody else; the first page where no page is named.
pub open spec fn spec_page_request(parts: Seq<Seq<char>>, user_at: int, sender_id: i64) -> Option<
    usize,
> {
    if user_at < parts.len() && i64_value(parts[user_at]) is Some && i64_value(parts[user_at])
        != Some(sender_id) {
        None
    } else if user_at + 1 < parts.len() {
        match i64_value(parts[user_at + 1]) {
            Some(page) => if 0 <= page <= usize::MAX {
                Some(page as usize)
            } else {
                Some(1usize)
            },
            None => Some(1usize),
        }
    } else {
        Some(1usize)
    }
}

/// Reads the page that a payload asks for, split into words. Buttons work
/// only for the user they were made for.
pub fn page_request(parts: &Vec<String>, user_at: usize, sender_id: i64) -> (out: Option<usize>)
    ensures
        out == spec_page_request(views(parts@), user_at as int, sender_id),
{
    if user_at < parts.len() {
        match parse_i64(parts[user_at].as_str()) {
            Some(user_id) => {
                if user_id != sender_id {
                    return None;
                }
            },
            None => {},
        }
    }
    if user_at < parts.len() && user_at + 1 < parts.len() {
        match parse_i64(parts[user_at + 1].as_str()) {
            Some(page) => {
                if page >= 0 && (page as u64) <= usize::MAX as u64 {
                    Some(page as usize)
                } else {
                    Some(1)
                }
            },
            None => Some(1),
        }
    } else {
        Some(1)
    }
}

} // verus!
