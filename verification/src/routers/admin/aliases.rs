//! The other names of a character or a series.
//!
//! A record has five aliases at most. An alias is 3 to 15 bytes long and
//! does not repeat one that the record has.

use crate::text::{same_text, trim, trimmed};
use vstd::prelude::*;
use vstd::string::*;

verus! {

/// The largest number of aliases of one record.
pub const MAX_ALIASES: usize = 5;

/// The least number of bytes of an alias.
pub const MIN_ALIAS_LENGTH: usize = 3;

/// The largest number of bytes of an alias.
pub const MAX_ALIAS_LENGTH: usize = 15;

/// What is to be said of a text proposed as an alias.
#[derive(Clone, Copy, Debug, PartialEq, Eq, Structural)]
pub enum AliasCheck {
    /// It has fewer than `MIN_ALIAS_LENGTH` bytes.
    TooShort,
    /// It has more than `MAX_ALIAS_LENGTH` bytes.
    TooLong,
    /// The record has it already.
    AlreadyExists,
    /// It can be an alias.
    Fits,
}

/// Whether one of `aliases` is the text `alias`.
pub open spec fn has_alias(aliases: Seq<String>, alias: Seq<char>) -> bool {
    exists|i: int| 0 <= i < aliases.len() && (#[trigger] aliases[i])@ == alias
}

/// What is to be said of `alias` as a new alias beside `aliases`.
pub open spec fn spec_check_alias(aliases: Seq<String>, alias: &str) -> AliasCheck {
    if alias.spec_bytes().len() < MIN_ALIAS_LENGTH {
        AliasCheck::TooShort
    } else if alias.spec_bytes().len() > MAX_ALIAS_LENGTH {
        AliasCheck::TooLong
    } else if has_alias(aliases, alias@) {
        AliasCheck::AlreadyExists
    } else {
        AliasCheck::Fits
    }
}

/// Tells whether the record may ask for one more alias.
pub fn has_room(aliases: &Vec<String>) -> (out: bool)
    ensures
        out == (aliases@.len() < MAX_ALIASES),
{
    aliases.len() < MAX_ALIASES
}

/// Checks `alias`, as it was sent, against the rules and against
/// `aliases`.
pub fn check_alias(aliases: &Vec<String>, alias: &str) -> (out: AliasCheck)
    ensures
        out == spec_check_alias(aliases@, alias),
{
    let length = alias.as_bytes().len();
    if length < MIN_ALIAS_LENGTH {
        return AliasCheck::TooShort;
    }
    if length > MAX_ALIAS_LENGTH {
        return AliasCheck::TooLong;
    }
    let mut i: usize = 0;
    while i < aliases.len()
        invariant
            i <= aliases@.len(),
            MIN_ALIAS_LENGTH <= alias.spec_bytes().len() <= MAX_ALIAS_LENGTH,
            forall|k: int| 0 <= k < i ==> (#[trigger] aliases@[k])@ != alias@,
        decreases aliases.len() - i,
    {
        if same_text(aliases[i].as_str(), alias) {
            assert(aliases@[i as int]@ == alias@);
            return AliasCheck::AlreadyExists;
        }
        i = i + 1;
    }
    AliasCheck::Fits
}

/// Adds `alias`, trimmed, behind `aliases` if it fits; else nothing
/// changes.
pub fn add_alias(aliases: &mut Vec<String>, alias: &str) -> (out: AliasCheck)
    ensures
        out == spec_check_alias(old(aliases)@, alias),
        out == AliasCheck::Fits ==> final(aliases)@.len() == old(aliases)@.len() + 1 && final(aliases)@.last()@ == trimmed(alias@) && final(aliases)@.drop_last() == old(aliases)@,
        out != AliasCheck::Fits ==> final(aliases)@ == old(aliases)@,
{
    let out = check_alias(aliases, alias);
    if out == AliasCheck::Fits {
        aliases.push(trim(alias));
        assert(aliases@.drop_last() =~= old(aliases)@);
    }
    out
}

/// What became of an attempt to rename an alias.
#[derive(Clone, Copy, Debug, PartialEq, Eq, Structural)]
pub enum Renamed {
    /// The new text does not fit; nothing changed.
    Unfit(AliasCheck),
    /// There is no alias at that place; nothing changed.
    Missing,
    /// The alias has the new text, trimmed.
    Done,
}

/// What renaming the alias at `index` to `alias` comes to.
pub open spec fn spec_renamed(aliases: Seq<String>, index: usize, alias: &str) -> Renamed {
    if spec_check_alias(aliases, alias) != AliasCheck::Fits {
        Renamed::Unfit(spec_check_alias(aliases, alias))
    } else if index >= aliases.len() {
        Renamed::Missing
    } else {
        Renamed::Done
    }
}

/// Gives the alias at `index` the text `alias`, trimmed, if that fits and
/// the place exists; else nothing changes.
pub fn rename_alias(aliases: &mut Vec<String>, index: usize, alias: &str) -> (out: Renamed)
    ensures
        out == spec_renamed(old(aliases)@, index, alias),
        final(aliases)@.len() == old(aliases)@.len(),
        out == Renamed::Done ==> final(aliases)@[index as int]@ == trimmed(alias@) && forall|k: int|
            0 <= k < old(aliases)@.len() && k != index ==> #[trigger] final(aliases)@[k] == old(aliases)@[k],
        out != Renamed::Done ==> final(aliases)@ == old(aliases)@,
{
    let check = check_alias(aliases, alias);
    if check != AliasCheck::Fits {
        return Renamed::Unfit(check);
    }
    if index >= aliases.len() {
        return Renamed::Missing;
    }
    aliases.set(index, trim(alias));
    Renamed::Done
}

/// Removes the alias at `index`, if there is one, and says whether there
/// was.
pub fn delete_alias(aliases: &mut Vec<String>, index: usize) -> (removed: bool)
    ensures
        removed == (index < old(aliases)@.len()),
        removed ==> final(aliases)@ == old(aliases)@.remove(index as int),
        !removed ==> final(aliases)@ == old(aliases)@,
{
    if index < aliases.len() {
        aliases.remove(index);
        true
    } else {
        false
    }
}

} // verus!
