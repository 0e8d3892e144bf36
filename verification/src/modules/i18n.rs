//! The texts of the bot in the languages it speaks.
//!
//! A locale is a list of texts, each under a key. A text is looked up in
//! the current locale first and in the default locale second.

use crate::text::same_text;
use vstd::prelude::*;
use vstd::string::*;

verus! {

/// The texts of one language.
#[derive(Clone, Debug)]
pub struct Locale {
    /// The code of the language, such as `en-GB`.
    pub code: String,
    /// The texts, each with its key. Where a key occurs twice the first
    /// entry counts.
    pub entries: Vec<(String, String)>,
}

/// The text under `key` among `entries`, if there is one.
pub open spec fn entry_of(entries: Seq<(String, String)>, key: Seq<char>) -> Option<Seq<char>>
    decreases entries.len(),
{
    if entries.len() == 0 {
        None
    } else if entries[0].0@ == key {
        Some(entries[0].1@)
    } else {
        entry_of(entries.drop_first(), key)
    }
}

/// The locale with the code `code` among `locales`, if there is one; the
/// first where several have it.
pub open spec fn locale_of(locales: Seq<Locale>, code: Seq<char>) -> Option<Locale>
    decreases locales.len(),
{
    if locales.len() == 0 {
        None
    } else if locales[0].code@ == code {
        Some(locales[0])
    } else {
        locale_of(locales.drop_first(), code)
    }
}

/// The text shown where a key is in neither locale.
pub open spec fn key_not_found() -> Seq<char> {
    "KEY_NOT_FOUND"@
}

/// The text shown where a locale is not loaded.
pub open spec fn language_not_found() -> Seq<char> {
    "LANGUAGE_NOT_FOUND"@
}

/// The text under `key` for the language `code`: the one of that locale,
/// else the one of the default locale.
pub open spec fn text_of(
    locales: Seq<Locale>,
    default_code: Seq<char>,
    code: Seq<char>,
    key: Seq<char>,
) -> Seq<char> {
    match locale_of(locales, code) {
        None => language_not_found(),
        Some(locale) => match entry_of(locale.entries@, key) {
            Some(text) => text,
            None => match locale_of(locales, default_code) {
                None => language_not_found(),
                Some(fallback) => match entry_of(fallback.entries@, key) {
                    Some(text) => text,
                    None => key_not_found(),
                },
            },
        },
    }
}

impl Locale {
    /// Looks `key` up in this locale.
    pub fn get(&self, key: &str) -> (out: Option<String>)
        ensures
            match out {
                Some(text) => entry_of(self.entries@, key@) == Some(text@),
                None => entry_of(self.entries@, key@) is None,
            },
    {
        let mut i: usize = 0;
        assert(self.entries@.subrange(0, self.entries@.len() as int) =~= self.entries@);
        while i < self.entries.len()
            invariant
                i <= self.entries@.len(),
                entry_of(self.entries@, key@) == entry_of(
                    self.entries@.subrange(i as int, self.entries@.len() as int),
                    key@,
                ),
            decreases self.entries.len() - i,
        {
            let ghost rest = self.entries@.subrange(i as int, self.entries@.len() as int);
            assert(rest[0] == self.entries@[i as int]);
            assert(rest.drop_first() =~= self.entries@.subrange(
                i + 1,
                self.entries@.len() as int,
            ));
            if same_text(self.entries[i].0.as_str(), key) {
                return Some(String::from_str(self.entries[i].1.as_str()));
            }
            i = i + 1;
        }
        None
    }
}

/// The loaded locales, the current one and the default one.
#[derive(Clone, Debug)]
pub struct I18n {
    locale: String,
    locales: Vec<Locale>,
    default_locale: String,
}

/// What is kept while another locale is in use: the one to go back to.
pub struct LocaleGuard {
    previous_locale: String,
}

impl LocaleGuard {
    /// The locale that `release` goes back to.
    pub closed spec fn previous(&self) -> Seq<char> {
        self.previous_locale@
    }

    /// Puts `locale` in use and remembers the one that was.
    pub fn new(i18n: &mut I18n, locale: &str) -> (out: Self)
        ensures
            out.previous() == old(i18n).current(),
            final(i18n).current() == old(i18n).current_after(locale@),
            final(i18n).loaded() == old(i18n).loaded(),
            final(i18n).default_code() == old(i18n).default_code(),
    {
        let previous_locale = i18n.locale();
        i18n.set_locale(locale);
        LocaleGuard { previous_locale }
    }

    /// Goes back to the locale that was in use before.
    pub fn release(self, i18n: &mut I18n)
        ensures
            final(i18n).current() == old(i18n).current_after(self.previous()),
            final(i18n).loaded() == old(i18n).loaded(),
            final(i18n).default_code() == old(i18n).default_code(),
    {
        i18n.set_locale(self.previous_locale.as_str());
    }
}

impl I18n {
    /// The code of the locale in use.
    pub closed spec fn current(&self) -> Seq<char> {
        self.locale@
    }

    /// The code of the default locale.
    pub closed spec fn default_code(&self) -> Seq<char> {
        self.default_locale@
    }

    /// The loaded locales.
    pub closed spec fn loaded(&self) -> Seq<Locale> {
        self.locales@
    }

    /// The text under `key` in the locale in use.
    pub open spec fn spec_get(&self, key: Seq<char>) -> Seq<char> {
        text_of(self.loaded(), self.default_code(), self.current(), key)
    }

    /// The text under `key` in the locale `code`.
    pub open spec fn spec_get_from_locale(&self, code: Seq<char>, key: Seq<char>) -> Seq<char> {
        text_of(self.loaded(), self.default_code(), code, key)
    }

    /// The code in use after `code` was asked for: `code` where that locale
    /// is loaded, else the one in use before.
    pub open spec fn current_after(&self, code: Seq<char>) -> Seq<char> {
        if locale_of(self.loaded(), code) is Some {
            code
        } else {
            self.current()
        }
    }

    /// No locale loaded yet; `locale` is both the default and in use.
    pub fn new(locale: &str) -> (out: Self)
        ensures
            out.current() == locale@,
            out.default_code() == locale@,
            out.loaded() == Seq::<Locale>::empty(),
    {
        I18n {
            locale: String::from_str(locale),
            locales: Vec::new(),
            default_locale: String::from_str(locale),
        }
    }

    /// Adds a locale behind those that are loaded.
    pub fn add_locale(&mut self, locale: Locale)
        ensures
            final(self).loaded() == old(self).loaded().push(locale),
            final(self).current() == old(self).current(),
            final(self).default_code() == old(self).default_code(),
    {
        self.locales.push(locale);
    }

    fn find(&self, code: &str) -> (out: Option<usize>)
        ensures
            match out {
                Some(i) => i < self.locales@.len() && locale_of(self.locales@, code@) == Some(
                    self.locales@[i as int],
                ),
                None => locale_of(self.locales@, code@) is None,
            },
    {
        let mut i: usize = 0;
        assert(self.locales@.subrange(0, self.locales@.len() as int) =~= self.locales@);
        while i < self.locales.len()
            invariant
                i <= self.locales@.len(),
                locale_of(self.locales@, code@) == locale_of(
                    self.locales@.subrange(i as int, self.locales@.len() as int),
                    code@,
                ),
            decreases self.locales.len() - i,
        {
            let ghost rest = self.locales@.subrange(i as int, self.locales@.len() as int);
            assert(rest[0] == self.locales@[i as int]);
            assert(rest.drop_first() =~= self.locales@.subrange(
                i + 1,
                self.locales@.len() as int,
            ));
            if same_text(self.locales[i].code.as_str(), code) {
                return Some(i);
            }
            i = i + 1;
        }
        None
    }

    /// The text under `key` in the locale in use.
    pub fn get(&self, key: &str) -> (out: String)
        ensures
            out@ == self.spec_get(key@),
    {
        self.get_from_locale(self.locale.as_str(), key)
    }

    /// The text under `key` in the locale `locale`. A key that the locale
    /// lacks is looked up in the default locale.
    pub fn get_from_locale(&self, locale: &str, key: &str) -> (out: String)
        ensures
            out@ == self.spec_get_from_locale(locale@, key@),
    {
        match self.find(locale) {
            None => String::from_str("LANGUAGE_NOT_FOUND"),
            Some(i) => match self.locales[i].get(key) {
                Some(text) => text,
                None => match self.find(self.default_locale.as_str()) {
                    None => String::from_str("LANGUAGE_NOT_FOUND"),
                    Some(d) => match self.locales[d].get(key) {
                        Some(text) => text,
                        None => String::from_str("KEY_NOT_FOUND"),
                    },
                },
            },
        }
    }

    /// The code of the locale in use.
    pub fn locale(&self) -> (out: String)
        ensures
            out@ == self.current(),
    {
        String::from_str(self.locale.as_str())
    }

    /// The codes of the loaded locales, in the order in which they were
    /// added.
    pub fn locales(&self) -> (out: Vec<String>)
        ensures
            out@.len() == self.loaded().len(),
            forall|i: int| 0 <= i < out@.len() ==> (#[trigger] out@[i])@ == self.loaded()[i].code@,
    {
        let mut out: Vec<String> = Vec::new();
        let mut i: usize = 0;
        while i < self.locales.len()
            invariant
                i <= self.locales@.len(),
                out@.len() == i,
                forall|k: int| 0 <= k < i ==> (#[trigger] out@[k])@ == self.locales@[k].code@,
            decreases self.locales.len() - i,
        {
            out.push(String::from_str(self.locales[i].code.as_str()));
            i = i + 1;
        }
        out
    }

    /// Puts `locale` in use, if it is loaded; else nothing changes.
    pub fn set_locale(&mut self, locale: &str)
        ensures
            final(self).current() == old(self).current_after(locale@),
            final(self).loaded() == old(self).loaded(),
            final(self).default_code() == old(self).default_code(),
    {
        if self.find(locale).is_some() {
            self.locale = String::from_str(locale);
        }
    }

    /// Puts `locale` in use until the guard that is returned is released.
    pub fn use_locale(&mut self, locale: &str) -> (out: LocaleGuard)
        ensures
            out.previous() == old(self).current(),
            final(self).current() == old(self).current_after(locale@),
            final(self).loaded() == old(self).loaded(),
            final(self).default_code() == old(self).default_code(),
    {
        LocaleGuard::new(self, locale)
    }
}

/// A locale that is put in use and released again leaves the locale that
/// was in use before, provided that one is loaded: `during` is the state
/// while the guard is held.
pub proof fn lemma_guard_restores(before: I18n, during: I18n, locale: Seq<char>)
    requires
        locale_of(before.loaded(), before.current()) is Some,
        during.loaded() == before.loaded(),
        during.current() == before.current_after(locale),
    ensures
        during.current_after(before.current()) == before.current(),
{
}

} // verus!
