//! Listing the characters of a user, page by page.

use crate::routers::admin::series::{pages, spec_pages};
use crate::text::{decimal, repeat_char, repeated, replace, replaced, u64_to_string};
use vstd::prelude::*;
use vstd::string::*;

verus! {

/// The number of characters on a page of the list.
pub const LIST_PAGE: usize = 15;

/// The number of pictures in an album.
pub const ALBUM_PAGE: usize = 9;

/// The largest number of pictures that the platform takes in one album.
pub const MAX_ALBUM: usize = 10;

/// The line of a character in the list: a link to it, and its stars.
pub open spec fn spec_page_line(url: Seq<char>, name: Seq<char>, stars: u8) -> Seq<char> {
    "\n· <a href=\""@ + url + "\">"@ + name + "</a> "@ + repeated('🟊', stars as nat)
}

/// Writes the line of a character in the list.
pub fn page_line(url: &str, name: &str, stars: u8) -> (out: String)
    ensures
        out@ == spec_page_line(url@, name@, stars),
{
    let mut out = String::from_str("\n· <a href=\"");
    out.append(url);
    out.append("\">");
    out.append(name);
    out.append("</a> ");
    out.append(repeat_char('🟊', stars as usize).as_str());
    out
}

/// What stands under a page of the list: two lines below it, the text
/// `page_text` with the page, counted from 1, in the place of `{0}` and
/// the number of pages in the place of `{1}`.
pub open spec fn spec_page_info(page_text: Seq<char>, page: int, total_pages: int) -> Seq<char> {
    "\n\n"@ + replaced(
        replaced(page_text, "{0}"@, decimal(page + 1)),
        "{1}"@,
        decimal(total_pages),
    )
}

/// Writes what stands under page `page`, counted from 0, of a list of
/// `count` characters, `page_limit` to a page, and counts the pages.
pub fn get_page_info(count: usize, page: usize, page_limit: usize, page_text: &str) -> (out: (
    String,
    usize,
))
    requires
        page_limit > 0,
        page < usize::MAX,
    ensures
        out.1 == spec_pages(count as nat, page_limit as nat),
        out.0@ == spec_page_info(page_text@, page as int, out.1 as int),
{
    let total_pages = pages(count, page_limit);
    let shown = u64_to_string((page + 1) as u64);
    let total = u64_to_string(total_pages as u64);
    let with_page = replace(page_text, "{0}", shown.as_str());
    let mut out = String::from_str("\n\n");
    out.append(replace(with_page.as_str(), "{1}", total.as_str()).as_str());
    (out, total_pages)
}

/// The number of pictures of an album made from `photos` pictures.
pub open spec fn album_size(photos: nat) -> nat {
    if photos < MAX_ALBUM {
        photos
    } else {
        MAX_ALBUM as nat
    }
}

/// The captions of the pictures of an album made from `photos` pictures:
/// the first carries `text`, the others carry nothing, and pictures beyond
/// the tenth are left out.
pub fn album_captions(text: &str, photos: usize) -> (out: Vec<String>)
    ensures
        out@.len() == album_size(photos as nat),
        forall|i: int|
            0 <= i < out@.len() ==> (#[trigger] out@[i])@ == if i == 0 {
                text@
            } else {
                Seq::<char>::empty()
            },
{
    let mut out: Vec<String> = Vec::new();
    let mut i: usize = 0;
    while i < photos && i < MAX_ALBUM
        invariant
            i <= photos,
            i <= MAX_ALBUM,
            out@.len() == i,
            forall|k: int|
                0 <= k < i ==> (#[trigger] out@[k])@ == if k == 0 {
                    text@
                } else {
                    Seq::<char>::empty()
                },
        decreases MAX_ALBUM - i,
    {
        if i == 0 {
            out.push(String::from_str(text));
        } else {
            out.push(String::new());
        }
        i = i + 1;
    }
    out
}

} // verus!
