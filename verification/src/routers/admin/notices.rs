//! The prompts and notices of the editing dialogs.

use crate::modules::i18n::I18n;
use crate::routers::admin::aliases::AliasCheck;
use crate::text::{decimal, lowercase, lowercase_of, replace, replaced, u64_to_string};
use vstd::prelude::*;
use vstd::string::*;

verus! {

/// A field that an administrator is asked for.
#[derive(Clone, Copy, Debug, PartialEq, Eq, Structural)]
pub enum Field {
    Name,
    Title,
    ArtistName,
    ImageLink,
    Alias,
    Photo,
    Banner,
}

impl Field {
    /// The key of the field's name among the texts.
    pub open spec fn spec_key(self) -> Seq<char> {
        match self {
            Field::Name => "name"@,
            Field::Title => "title"@,
            Field::ArtistName => "artist_name"@,
            Field::ImageLink => "image_link"@,
            Field::Alias => "alias"@,
            Field::Photo => "photo"@,
            Field::Banner => "banner"@,
        }
    }

    /// The key of the field's name among the texts.
    pub fn key(&self) -> (out: &'static str)
        ensures
            out@ == self.spec_key(),
    {
        match self {
            Field::Name => "name",
            Field::Title => "title",
            Field::ArtistName => "artist_name",
            Field::ImageLink => "image_link",
            Field::Alias => "alias",
            Field::Photo => "photo",
            Field::Banner => "banner",
        }
    }

    /// Whether the field is answered with a photo and not with text.
    pub open spec fn is_photo(self) -> bool {
        self == Field::Photo || self == Field::Banner
    }

    /// The seconds that an administrator has to send the field.
    pub open spec fn spec_timeout(self) -> u64 {
        match self {
            Field::Name => 15,
            Field::Title => 15,
            Field::ArtistName => 15,
            Field::ImageLink => 15,
            Field::Alias => 10,
            Field::Photo => 30,
            Field::Banner => 30,
        }
    }

    /// The seconds that an administrator has to send the field.
    pub fn timeout(&self) -> (out: u64)
        ensures
            out == self.spec_timeout(),
    {
        match self {
            Field::Name => 15,
            Field::Title => 15,
            Field::ArtistName => 15,
            Field::ImageLink => 15,
            Field::Alias => 10,
            Field::Photo => 30,
            Field::Banner => 30,
        }
    }
}

/// The prompt for a field: the text `ask_field` with the field's name and
/// the seconds to answer filled in.
pub open spec fn spec_ask_field(i18n: &I18n, field: Field) -> Seq<char> {
    replaced(
        replaced(i18n.spec_get("ask_field"@), "{field}"@, i18n.spec_get(field.spec_key())),
        "{timeout}"@,
        decimal(field.spec_timeout() as int),
    )
}

/// Writes the prompt for a field.
pub fn ask_field(i18n: &I18n, field: Field) -> (out: String)
    ensures
        out@ == spec_ask_field(i18n, field),
{
    let template = i18n.get("ask_field");
    let name = i18n.get(field.key());
    let seconds = u64_to_string(field.timeout());
    let with_field = replace(template.as_str(), "{field}", name.as_str());
    replace(with_field.as_str(), "{timeout}", seconds.as_str())
}

/// The text under `key` with the lowercase name of a field filled in.
pub open spec fn spec_about_field(i18n: &I18n, key: Seq<char>, field: Seq<char>) -> Seq<char> {
    replaced(i18n.spec_get(key), "{field}"@, lowercase_of(i18n.spec_get(field)))
}

/// The notice that a field was stored.
pub fn field_updated(i18n: &I18n, field: Field) -> (out: String)
    ensures
        out@ == spec_about_field(i18n, "field_updated"@, field.spec_key()),
{
    let template = i18n.get("field_updated");
    let name = lowercase(i18n.get(field.key()).as_str());
    replace(template.as_str(), "{field}", name.as_str())
}

/// The notice that a field could not be stored. `field` is the key of the
/// field's name among the texts.
pub fn error_occurred(i18n: &I18n, field: &str) -> (out: String)
    ensures
        out@ == spec_about_field(i18n, "error_occurred"@, field@),
{
    let template = i18n.get("error_occurred");
    let name = lowercase(i18n.get(field).as_str());
    replace(template.as_str(), "{field}", name.as_str())
}

/// The notice that an operation ended because no answer came in time.
pub open spec fn spec_operation_cancelled(i18n: &I18n) -> Seq<char> {
    replaced(i18n.spec_get("operation_cancelled"@), "{reason}"@, i18n.spec_get("timeout"@))
}

/// Writes the notice that an operation ended because no answer came in
/// time.
pub fn operation_cancelled(i18n: &I18n) -> (out: String)
    ensures
        out@ == spec_operation_cancelled(i18n),
{
    let template = i18n.get("operation_cancelled");
    let reason = i18n.get("timeout");
    replace(template.as_str(), "{reason}", reason.as_str())
}

/// What is said of a text that cannot be an alias.
pub open spec fn spec_alias_notice(i18n: &I18n, check: AliasCheck) -> Seq<char> {
    match check {
        AliasCheck::TooShort => replaced(i18n.spec_get("alias_too_short"@), "{min}"@, "3"@),
        AliasCheck::TooLong => replaced(i18n.spec_get("alias_too_long"@), "{max}"@, "15"@),
        AliasCheck::AlreadyExists => i18n.spec_get("alias_already_exists"@),
        AliasCheck::Fits => spec_about_field(i18n, "field_updated"@, "alias"@),
    }
}

/// Writes what is said after a text was proposed as an alias: why it
/// cannot be one, or that it was stored.
pub fn alias_notice(i18n: &I18n, check: AliasCheck) -> (out: String)
    ensures
        out@ == spec_alias_notice(i18n, check),
{
    match check {
        AliasCheck::TooShort => replace(i18n.get("alias_too_short").as_str(), "{min}", "3"),
        AliasCheck::TooLong => replace(i18n.get("alias_too_long").as_str(), "{max}", "15"),
        AliasCheck::AlreadyExists => i18n.get("alias_already_exists"),
        AliasCheck::Fits => field_updated(i18n, Field::Alias),
    }
}

/// The question whether to delete something: the text `confirm_delete`
/// with the lowercase name of the kind of thing and with what names the
/// thing filled in.
pub open spec fn spec_confirm_delete(i18n: &I18n, object: Seq<char>, id: Seq<char>) -> Seq<char> {
    replaced(
        replaced(i18n.spec_get("confirm_delete"@), "{object}"@, lowercase_of(i18n.spec_get(object))),
        "{id}"@,
        id,
    )
}

/// Writes the question whether to delete something. `object` is the key of
/// the kind of thing among the texts, `id` what names the thing.
pub fn confirm_delete(i18n: &I18n, object: &str, id: &str) -> (out: String)
    ensures
        out@ == spec_confirm_delete(i18n, object@, id@),
{
    let template = i18n.get("confirm_delete");
    let kind = lowercase(i18n.get(object).as_str());
    let with_object = replace(template.as_str(), "{object}", kind.as_str());
    replace(with_object.as_str(), "{id}", id)
}

/// The notice that something was created.
pub open spec fn spec_object_created(i18n: &I18n, object: Seq<char>) -> Seq<char> {
    replaced(i18n.spec_get("object_created"@), "{object}"@, i18n.spec_get(object))
}

/// Writes the notice that something was created. `object` is the key of
/// the kind of thing among the texts.
pub fn object_created(i18n: &I18n, object: &str) -> (out: String)
    ensures
        out@ == spec_object_created(i18n, object@),
{
    let template = i18n.get("object_created");
    let kind = i18n.get(object);
    replace(template.as_str(), "{object}", kind.as_str())
}

/// The notice that something was deleted.
pub open spec fn spec_object_deleted(i18n: &I18n, object: Seq<char>, id: i64) -> Seq<char> {
    replaced(
        replaced(i18n.spec_get("object_deleted"@), "{object}"@, i18n.spec_get(object)),
        "{id}"@,
        decimal(id as int),
    )
}

/// Writes the notice that the thing numbered `id` was deleted. `object` is
/// the key of the kind of thing among the texts.
pub fn object_deleted(i18n: &I18n, object: &str, id: i64) -> (out: String)
    ensures
        out@ == spec_object_deleted(i18n, object@, id),
{
    let template = i18n.get("object_deleted");
    let kind = i18n.get(object);
    let number = crate::text::i64_to_string(id);
    let with_object = replace(template.as_str(), "{object}", kind.as_str());
    replace(with_object.as_str(), "{id}", number.as_str())
}

} // verus!
