//! The texts that describe characters and series.
//!
//! A description is a template in which placeholders such as `{name}` are
//! replaced one after the other. The contracts say so literally: a field
//! that itself holds a placeholder of a later step is rewritten by that
//! step, and the functions are specified to do exactly that.

use crate::database::models::{Character, Gender, Media, Series};
use crate::text::{
    chars_of, decimal, i64_to_string, push_char, repeat_char, repeated, replace, replaced,
    same_text, u64_to_string,
};
use vstd::prelude::*;
use vstd::string::*;
use vstd::utf8::*;

verus! {

broadcast use {vstd::utf8::encode_utf8_decode_utf8};

/// What follows a text that was cut.
pub open spec fn ellipsis() -> Seq<char> {
    "..."@
}

/// `text` cut to its first `size` bytes, with an ellipsis, where it is
/// longer than that; else `text` itself.
pub open spec fn shortened(text: Seq<char>, size: nat) -> Seq<char> {
    if encode_utf8(text).len() > size {
        decode_utf8(encode_utf8(text).subrange(0, size as int)) + ellipsis()
    } else {
        text
    }
}

/// Cuts `text` to its first `size` bytes and marks the cut with an
/// ellipsis. A text of `size` bytes or fewer is returned as it is. The cut
/// must not fall inside a character.
pub fn shorten_text(text: &str, size: usize) -> (out: String)
    requires
        text.spec_bytes().len() > size ==> is_char_boundary(text.spec_bytes(), size as int),
    ensures
        out@ == shortened(text@, size as nat),
{
    if text.as_bytes().len() > size {
        let (head, _) = text.split_at(size);
        let mut out = String::from_str(head);
        assert(decode_utf8(encode_utf8(head@)) == head@);
        out.append("...");
        out
    } else {
        String::from_str(text)
    }
}

/// What stands for a character in HTML: an entity for each of `&`, `<`,
/// `>`, `\`, `'` and `/`, and the character itself for any other. The
/// backslash is written as the entity of the quotation mark.
pub open spec fn entity(c: char) -> Seq<char> {
    if c == '&' {
        "&amp;"@
    } else if c == '<' {
        "&lt;"@
    } else if c == '>' {
        "&gt;"@
    } else if c == '\\' {
        "&quot;"@
    } else if c == '\'' {
        "&#x27;"@
    } else if c == '/' {
        "&#x2F;"@
    } else {
        seq![c]
    }
}

/// `text` with each character written as what stands for it in HTML.
pub open spec fn escaped(text: Seq<char>) -> Seq<char>
    decreases text.len(),
{
    if text.len() == 0 {
        Seq::<char>::empty()
    } else {
        escaped(text.drop_last()) + entity(text.last())
    }
}

/// Writes the characters `&`, `<`, `>`, `\`, `'` and `/` of `text` as HTML
/// entities.
pub fn escape_html(text: &str) -> (out: String)
    ensures
        out@ == escaped(text@),
{
    let v = chars_of(text);
    let mut out = String::new();
    let mut i: usize = 0;
    assert(v@.take(0) =~= Seq::<char>::empty());
    while i < v.len()
        invariant
            i <= v@.len(),
            out@ == escaped(v@.take(i as int)),
        decreases v.len() - i,
    {
        let c = v[i];
        let ghost before = v@.take(i as int);
        let ghost after = v@.take(i + 1);
        assert(after.drop_last() =~= before);
        assert(after.last() == c);
        if c == '&' {
            out.append("&amp;");
        } else if c == '<' {
            out.append("&lt;");
        } else if c == '>' {
            out.append("&gt;");
        } else if c == '\\' {
            out.append("&quot;");
        } else if c == '\'' {
            out.append("&#x27;");
        } else if c == '/' {
            out.append("&#x2F;");
        } else {
            push_char(&mut out, c);
            assert(before.len() >= 0 && escaped(before).push(c) =~= escaped(before) + seq![c]);
        }
        i = i + 1;
    }
    assert(v@.take(v@.len() as int) =~= v@);
    out
}

/// The symbol of a kind of work.
pub open spec fn spec_media_type_symbol(media: Media) -> Seq<char> {
    match media {
        Media::Anime => "📺"@,
        Media::Game => "🧩"@,
        Media::Manga => "📚"@,
        Media::Manhua => "📚"@,
        Media::Manhwa => "📓"@,
        Media::LightNovel => "📖"@,
        Media::VisualNovel => "🧩"@,
        Media::Unknown => "❓"@,
    }
}

/// The symbol of a kind of work.
pub fn media_type_symbol(media: &Media) -> (out: &'static str)
    ensures
        out@ == spec_media_type_symbol(*media),
{
    match media {
        Media::Anime => "📺",
        Media::Game => "🧩",
        Media::Manga => "📚",
        Media::Manhua => "📚",
        Media::Manhwa => "📓",
        Media::LightNovel => "📖",
        Media::VisualNovel => "🧩",
        Media::Unknown => "❓",
    }
}

/// The symbol of a gender.
pub open spec fn spec_gender_symbol(gender: Gender) -> Seq<char> {
    match gender {
        Gender::Male => "💥"@,
        Gender::Female => "🌸"@,
        Gender::Other => "🍃"@,
    }
}

/// The symbol of a gender.
pub fn gender_symbol(gender: &Gender) -> (out: &'static str)
    ensures
        out@ == spec_gender_symbol(*gender),
{
    match gender {
        Gender::Male => "💥",
        Gender::Female => "🌸",
        Gender::Other => "🍃",
    }
}

/// The bubble that stands for a number of stars; every number but 1 to 5
/// has the yellow one.
pub open spec fn spec_bubble(stars: u8) -> Seq<char> {
    if stars == 1 {
        "⚪"@
    } else if stars == 2 {
        "🟢"@
    } else if stars == 3 {
        "🔵"@
    } else if stars == 4 {
        "🟣"@
    } else if stars == 5 {
        "🔴"@
    } else {
        "🟡"@
    }
}

/// The bubble that stands for a number of stars.
pub fn bubble(stars: u8) -> (out: &'static str)
    ensures
        out@ == spec_bubble(stars),
{
    if stars == 1 {
        "⚪"
    } else if stars == 2 {
        "🟢"
    } else if stars == 3 {
        "🔵"
    } else if stars == 4 {
        "🟣"
    } else if stars == 5 {
        "🔴"
    } else {
        "🟡"
    }
}

/// Whether a link to an image is one: the texts `.` and `0` stand for none.
pub open spec fn has_link(image_link: Seq<char>) -> bool {
    !(image_link == "."@ || image_link == "0"@)
}

/// The credit of an artist: the name, linked to the image where there is a
/// link, between ` | 🎨 ` and a full stop.
pub open spec fn credit(image_link: Seq<char>, artist: Seq<char>) -> Seq<char> {
    " | 🎨 "@ + (if has_link(image_link) {
        "<a href='"@ + image_link + "'>"@ + artist + "</a>"@
    } else {
        artist
    }) + "."@
}

fn write_credit(image_link: &str, artist: &str) -> (out: String)
    ensures
        out@ == credit(image_link@, artist@),
{
    let mut out = String::from_str(" | 🎨 ");
    if !(same_text(image_link, ".") || same_text(image_link, "0")) {
        out.append("<a href='");
        out.append(image_link);
        out.append("'>");
        out.append(artist);
        out.append("</a>");
        assert(out@ =~= " | 🎨 "@ + ("<a href='"@ + image_link@ + "'>"@ + artist@ + "</a>"@));
    } else {
        out.append(artist);
    }
    out.append(".");
    out
}

/// The number of a record in a column `space_count` wide: spaces that fill
/// the column, the seam between two code spans, then the number.
pub open spec fn id_cell(id: i64, space_count: nat) -> Seq<char> {
    let width = decimal(id as int).len();
    (if space_count > width {
        repeated(' ', (space_count - width) as nat)
    } else {
        Seq::<char>::empty()
    }) + "</code><code>"@ + decimal(id as int)
}

fn write_id_cell(id: i64, space_count: usize) -> (out: String)
    ensures
        out@ == id_cell(id, space_count as nat),
{
    let number = i64_to_string(id);
    let width = number.as_str().unicode_len();
    let mut out = if space_count > width {
        repeat_char(' ', space_count - width)
    } else {
        String::new()
    };
    out.append("</code><code>");
    out.append(number.as_str());
    out
}

/// The line that presents a character: gender, number and name, with the
/// artist's credit behind the name where `show_artist` asks for it.
pub open spec fn character_partial_info(
    character: Character,
    show_artist: bool,
    space_count: nat,
) -> Seq<char> {
    let name = character.name@ + (if show_artist {
        credit(character.image_link@, character.artist@)
    } else {
        Seq::<char>::empty()
    });
    let template = "{gender} <code>{id}</code>. <b>{name}</b>\n"@;
    let with_id = replaced(template, "{id}"@, id_cell(character.id, space_count));
    let with_gender = replaced(with_id, "{gender}"@, spec_gender_symbol(character.gender));
    replaced(with_gender, "{name}"@, name)
}

/// Writes the line that presents a character. `space_count` is the width
/// of the column of numbers in a list; 0 where the line stands alone.
pub fn construct_character_partial_info(
    character: &Character,
    show_artist: bool,
    space_count: usize,
) -> (out: String)
    ensures
        out@ == character_partial_info(*character, show_artist, space_count as nat),
{
    let mut name = String::from_str(character.name.as_str());
    if show_artist {
        let artist = write_credit(character.image_link.as_str(), character.artist.as_str());
        name.append(artist.as_str());
    } else {
        assert(name@ + Seq::<char>::empty() =~= name@);
    }
    let cell = write_id_cell(character.id, space_count);
    let with_id = replace("{gender} <code>{id}</code>. <b>{name}</b>\n", "{id}", cell.as_str());
    let with_gender = replace(with_id.as_str(), "{gender}", gender_symbol(&character.gender));
    replace(with_gender.as_str(), "{name}", name.as_str())
}

/// The title of a series that may be missing: empty where it is.
pub open spec fn title_of(series: Option<Series>) -> Seq<char> {
    match series {
        Some(series) => series.title@,
        None => Seq::<char>::empty(),
    }
}

/// The kind of a series that may be missing: unknown where it is.
pub open spec fn media_of(series: Option<Series>) -> Media {
    match series {
        Some(series) => series.media_type,
        None => Media::Unknown,
    }
}

/// The full description of a character: its line with the artist's credit,
/// the series it comes from, and its stars.
pub open spec fn character_info(character: Character, series: Option<Series>) -> Seq<char> {
    let template = character_partial_info(character, true, 0)
        + "{series_type} <i>{series_title}</i>\n\n⭐: {bubble}"@;
    let with_title = replaced(template, "{series_title}"@, title_of(series));
    let with_type = replaced(with_title, "{series_type}"@, spec_media_type_symbol(media_of(series)));
    replaced(with_type, "{bubble}"@, spec_bubble(character.stars))
}

/// Writes the full description of a character.
pub fn construct_character_info(character: &Character, series: Option<Series>) -> (out: String)
    ensures
        out@ == character_info(*character, series),
{
    let mut template = construct_character_partial_info(character, true, 0);
    template.append("{series_type} <i>{series_title}</i>\n\n⭐: {bubble}");
    let media = match &series {
        Some(series) => series.media_type,
        None => Media::Unknown,
    };
    let with_title = match &series {
        Some(series) => replace(template.as_str(), "{series_title}", series.title.as_str()),
        None => replace(template.as_str(), "{series_title}", ""),
    };
    proof {
        reveal_strlit("");
        assert(""@ =~= Seq::<char>::empty());
    }
    let with_type = replace(with_title.as_str(), "{series_type}", media_type_symbol(&media));
    replace(with_type.as_str(), "{bubble}", bubble(character.stars))
}

/// The head of a series: symbol, number and title, followed by the number
/// of its characters where that is not zero, and by the artist's credit
/// where `show_artist` asks for it.
pub open spec fn series_info(series: Series, total_characters: nat, show_artist: bool) -> Seq<
    char,
> {
    let template = "{emoji} <code>{id}</code>. <b>{title}</b>"@ + (if total_characters > 0 {
        " | 👨‍👩‍👧‍👦 : "@ + decimal(total_characters as int)
    } else {
        Seq::<char>::empty()
    }) + (if show_artist {
        credit(series.image_link@, series.artist@)
    } else {
        Seq::<char>::empty()
    }) + "\n\n"@;
    let with_emoji = replaced(template, "{emoji}"@, spec_media_type_symbol(series.media_type));
    let with_id = replaced(with_emoji, "{id}"@, decimal(series.id as int));
    let with_title = replaced(with_id, "{title}"@, series.title@);
    replaced(with_title, "{media_type}"@, series.media_type.spec_name())
}

/// Writes the head of a series.
pub fn construct_series_info(series: &Series, total_characters: usize, show_artist: bool) -> (out:
    String)
    ensures
        out@ == series_info(*series, total_characters as nat, show_artist),
{
    let mut template = String::from_str("{emoji} <code>{id}</code>. <b>{title}</b>");
    let ghost head = template@;
    if total_characters > 0 {
        template.append(" | 👨‍👩‍👧‍👦 : ");
        let total = u64_to_string(total_characters as u64);
        template.append(total.as_str());
        assert(template@ =~= head + (" | 👨‍👩‍👧‍👦 : "@ + decimal(total_characters as int)));
    } else {
        assert(template@ =~= head + Seq::<char>::empty());
    }
    let ghost counted = template@;
    if show_artist {
        let artist = write_credit(series.image_link.as_str(), series.artist.as_str());
        template.append(artist.as_str());
    } else {
        assert(template@ =~= counted + Seq::<char>::empty());
    }
    template.append("\n\n");
    let id = i64_to_string(series.id);
    let kind = series.media_type.name();
    let with_emoji = replace(template.as_str(), "{emoji}", media_type_symbol(&series.media_type));
    let with_id = replace(with_emoji.as_str(), "{id}", id.as_str());
    let with_title = replace(with_id.as_str(), "{title}", series.title.as_str());
    replace(with_title.as_str(), "{media_type}", kind.as_str())
}

} // verus!
