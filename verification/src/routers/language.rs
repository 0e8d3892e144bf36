//! Choosing the language that the bot speaks in a chat.

use crate::modules::i18n::I18n;
use crate::routers::keyboard::{button, face, faces, grid, layouts, Block, Button, Layout};
use crate::text::{replace, replaced, same_text};
use vstd::prelude::*;
use vstd::string::*;

verus! {

/// The button of a language: its name in that language, with a check mark
/// behind the one in use, and the request to set it as payload.
pub open spec fn language_face(i18n: &I18n, code: Seq<char>) -> (Seq<char>, Seq<char>) {
    (
        i18n.spec_get_from_locale(code, "language_name"@) + " "@ + (if code == i18n.current() {
            "✔"@
        } else {
            Seq::<char>::empty()
        }),
        "set_language "@ + code,
    )
}

/// The languages to choose from, two to a row.
pub open spec fn language_menu(i18n: &I18n) -> Seq<Layout> {
    seq![
        Layout::Grid(
            Seq::new(i18n.loaded().len(), |k: int| language_face(i18n, i18n.loaded()[k].code@)),
            2,
        ),
    ]
}

/// Writes the languages to choose from.
pub fn write_language_menu(i18n: &I18n) -> (out: Vec<Block>)
    ensures
        layouts(out@) == language_menu(i18n),
{
    let codes = i18n.locales();
    let current = i18n.locale();
    let mut buttons: Vec<Button> = Vec::new();
    let mut k: usize = 0;
    while k < codes.len()
        invariant
            k <= codes@.len(),
            codes@.len() == i18n.loaded().len(),
            current@ == i18n.current(),
            forall|i: int| 0 <= i < codes@.len() ==> (#[trigger] codes@[i])@ == i18n.loaded()[i].code@,
            buttons@.len() == k,
            forall|j: int|
                0 <= j < k ==> face(#[trigger] buttons@[j]) == language_face(
                    i18n,
                    i18n.loaded()[j].code@,
                ),
        decreases codes.len() - k,
    {
        let code = codes[k].as_str();
        let mut text = i18n.get_from_locale(code, "language_name");
        text.append(" ");
        if same_text(code, current.as_str()) {
            text.append("✔");
        } else {
            assert(text@ + Seq::<char>::empty() =~= text@);
        }
        let mut data = String::from_str("set_language ");
        data.append(code);
        buttons.push(button(text, data));
        k = k + 1;
    }
    assert(faces(buttons@) =~= Seq::new(
        i18n.loaded().len(),
        |k: int| language_face(i18n, i18n.loaded()[k].code@),
    ));
    let mut out: Vec<Block> = Vec::new();
    out.push(grid(buttons, 2));
    assert(layouts(out@) =~= language_menu(i18n));
    out
}

/// The language that a payload asks for: its second word.
pub fn requested_language(parts: &Vec<String>) -> (out: Option<String>)
    ensures
        match out {
            Some(code) => parts@.len() > 1 && code@ == parts@[1]@,
            None => parts@.len() <= 1,
        },
{
    if parts.len() > 1 {
        Some(String::from_str(parts[1].as_str()))
    } else {
        None
    }
}

/// The notice that the language was set: the text `language_set` with the
/// name of the language in use filled in.
pub open spec fn spec_language_set(i18n: &I18n) -> Seq<char> {
    replaced(i18n.spec_get("language_set"@), "{new_lang}"@, i18n.spec_get("language_name"@))
}

/// Writes the notice that the language was set, in the language in use.
pub fn language_set(i18n: &I18n) -> (out: String)
    ensures
        out@ == spec_language_set(i18n),
{
    let name = i18n.get("language_name");
    replace(i18n.get("language_set").as_str(), "{new_lang}", name.as_str())
}

/// Gives a chat the language `locale`, and says whether that changed the
/// language that is stored for it, which is then to be stored and
/// announced.
pub fn change_language(language_code: &mut String, locale: &str) -> (changed: bool)
    ensures
        changed == (old(language_code)@ != locale@),
        final(language_code)@ == locale@,
{
    if same_text(language_code.as_str(), locale) {
        assert(language_code@ == locale@);
        false
    } else {
        *language_code = String::from_str(locale);
        true
    }
}

} // verus!
