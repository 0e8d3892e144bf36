//! The records that the game works on.

use vstd::prelude::*;
use vstd::string::*;

verus! {

/// A collectible character.
#[derive(Clone, Debug)]
pub struct Character {
    pub id: i64,
    pub name: String,
    pub stars: u8,
    pub image: Option<Vec<u8>>,
    pub gender: Gender,
    pub artist: String,
    pub aliases: Vec<String>,
    pub liked_by: Vec<i64>,
    pub series_id: i64,
    pub image_link: String,
    pub anilist_id: Option<i64>,
}

impl Default for Character {
    fn default() -> (out: Self)
        ensures
            out.id == 0,
            out.name@.len() == 0,
            out.stars == 0,
            out.image is None,
            out.gender == Gender::Male,
            out.artist@.len() == 0,
            out.aliases@.len() == 0,
            out.liked_by@.len() == 0,
            out.series_id == 0,
            out.image_link@.len() == 0,
            out.anilist_id is None,
    {
        Character {
            id: 0,
            name: String::new(),
            stars: 0,
            image: None,
            gender: Gender::Male,
            artist: String::new(),
            aliases: Vec::new(),
            liked_by: Vec::new(),
            series_id: 0,
            image_link: String::new(),
            anilist_id: None,
        }
    }
}

/// A group chat.
#[derive(Clone, Debug)]
pub struct Group {
    pub id: i64,
    pub title: String,
    pub username: Option<String>,
    pub language_code: String,
}

/// The character last shown in a group. `available` holds while nobody has
/// collected it.
#[derive(Clone, Copy, Debug, PartialEq, Eq, Structural)]
pub struct GroupCharacter {
    pub group_id: i64,
    pub character_id: i64,
    pub last_message_id: i32,
    pub available: bool,
}

/// A work that characters come from.
#[derive(Clone, Debug)]
pub struct Series {
    pub id: i64,
    pub title: String,
    pub artist: String,
    pub banner: Option<Vec<u8>>,
    pub aliases: Vec<String>,
    pub liked_by: Vec<i64>,
    pub image_link: String,
    pub media_type: Media,
}

impl Default for Series {
    fn default() -> (out: Self)
        ensures
            out.id == 0,
            out.title@.len() == 0,
            out.artist@.len() == 0,
            out.banner is None,
            out.aliases@.len() == 0,
            out.liked_by@.len() == 0,
            out.image_link@.len() == 0,
            out.media_type == Media::Unknown,
    {
        Series {
            id: 0,
            title: String::new(),
            artist: String::new(),
            banner: None,
            aliases: Vec::new(),
            liked_by: Vec::new(),
            image_link: String::new(),
            media_type: Media::Unknown,
        }
    }
}

/// A person.
#[derive(Clone, Debug)]
pub struct User {
    pub id: i64,
    pub username: Option<String>,
    pub full_name: String,
    pub language_code: String,
}

/// The characters that one user owns in one group, in the order in which
/// they were collected.
#[derive(Clone, Debug)]
pub struct UserCharacters {
    pub user_id: i64,
    pub group_id: i64,
    pub characters_id: Vec<i64>,
}

/// The largest number of characters that one user owns in one group,
/// unless the game is set up with another.
pub const MAX_CHARACTERS: usize = 9;

/// What became of an attempt to add a character to a collection.
#[derive(Clone, Copy, Debug, PartialEq, Eq, Structural)]
pub enum Added {
    /// The character is now the last of the collection.
    Added,
    /// The collection held the character already and is unchanged.
    AlreadyOwned,
    /// The collection is full and is unchanged.
    Full,
}

impl UserCharacters {
    /// No character occurs twice.
    pub open spec fn well_formed(&self) -> bool {
        self.characters_id@.no_duplicates()
    }

    /// Tells whether no character occurs twice.
    pub fn is_well_formed(&self) -> (out: bool)
        ensures
            out == self.well_formed(),
    {
        let n = self.characters_id.len();
        let mut i: usize = 0;
        while i < n
            invariant
                i <= n == self.characters_id@.len(),
                forall|a: int, b: int|
                    0 <= a < i && a < b < n ==> self.characters_id@[a] != self.characters_id@[b],
            decreases n - i,
        {
            let mut j: usize = i + 1;
            while j < n
                invariant
                    i < j <= n == self.characters_id@.len(),
                    forall|b: int| i < b < j ==> self.characters_id@[i as int] != self.characters_id@[b],
                decreases n - j,
            {
                if self.characters_id[i] == self.characters_id[j] {
                    return false;
                }
                j = j + 1;
            }
            i = i + 1;
        }
        assert forall|a: int, b: int|
            0 <= a < n && 0 <= b < n && a != b implies self.characters_id@[a]
            != self.characters_id@[b] by {
            if a < b {
            } else {
                assert(self.characters_id@[b] != self.characters_id@[a]);
            }
        }
        true
    }

    /// An empty collection of `user_id` in `group_id`.
    pub fn new(user_id: i64, group_id: i64) -> (out: Self)
        ensures
            out.user_id == user_id,
            out.group_id == group_id,
            out.characters_id@ == Seq::<i64>::empty(),
            out.well_formed(),
    {
        UserCharacters { user_id, group_id, characters_id: Vec::new() }
    }

    /// The position of `character_id` in the collection, if it is there.
    pub fn position(&self, character_id: i64) -> (out: Option<usize>)
        ensures
            match out {
                Some(i) => i < self.characters_id@.len() && self.characters_id@[i as int]
                    == character_id && forall|k: int|
                    0 <= k < i ==> self.characters_id@[k] != character_id,
                None => !self.characters_id@.contains(character_id),
            },
    {
        let mut i: usize = 0;
        while i < self.characters_id.len()
            invariant
                i <= self.characters_id@.len(),
                forall|k: int| 0 <= k < i ==> self.characters_id@[k] != character_id,
            decreases self.characters_id.len() - i,
        {
            if self.characters_id[i] == character_id {
                return Some(i);
            }
            i = i + 1;
        }
        None
    }

    /// Whether the collection holds `character_id`.
    pub fn owns(&self, character_id: i64) -> (out: bool)
        ensures
            out == self.characters_id@.contains(character_id),
    {
        self.position(character_id).is_some()
    }

    /// What adding `character_id` comes to, where a collection holds
    /// `capacity` characters at most.
    pub open spec fn spec_added(&self, character_id: i64, capacity: usize) -> Added {
        if self.characters_id@.contains(character_id) {
            Added::AlreadyOwned
        } else if self.characters_id@.len() >= capacity {
            Added::Full
        } else {
            Added::Added
        }
    }

    /// Adds `character_id` at the end of the collection, unless the
    /// collection holds it already or holds `capacity` characters; then
    /// nothing changes. A collection never grows beyond the capacity.
    pub fn add(&mut self, character_id: i64, capacity: usize) -> (out: Added)
        requires
            old(self).well_formed(),
        ensures
            out == old(self).spec_added(character_id, capacity),
            old(self).characters_id@.len() <= capacity ==> final(self).characters_id@.len()
                <= capacity,
            final(self).user_id == old(self).user_id,
            final(self).group_id == old(self).group_id,
            final(self).characters_id@ == if out == Added::Added {
                old(self).characters_id@.push(character_id)
            } else {
                old(self).characters_id@
            },
            final(self).well_formed(),
    {
        if self.owns(character_id) {
            Added::AlreadyOwned
        } else if self.characters_id.len() >= capacity {
            Added::Full
        } else {
            self.characters_id.push(character_id);
            Added::Added
        }
    }

    /// Whether `old_id` can give its place to `new_id`: the collection holds
    /// the first and not the second.
    pub open spec fn can_swap(&self, old_id: i64, new_id: i64) -> bool {
        self.characters_id@.contains(old_id) && !self.characters_id@.contains(new_id)
    }

    /// Puts `new_id` in the place of `old_id`. Refused, with nothing
    /// changed, where the collection does not hold `old_id` or holds
    /// `new_id` already.
    pub fn swap(&mut self, old_id: i64, new_id: i64) -> (swapped: bool)
        requires
            old(self).well_formed(),
        ensures
            swapped == old(self).can_swap(old_id, new_id),
            final(self).user_id == old(self).user_id,
            final(self).group_id == old(self).group_id,
            swapped ==> exists|i: int|
                0 <= i < old(self).characters_id@.len() && old(self).characters_id@[i] == old_id
                    && final(self).characters_id@ == old(self).characters_id@.update(i, new_id),
            !swapped ==> final(self).characters_id@ == old(self).characters_id@,
            swapped ==> final(self).characters_id@.contains(new_id) && !final(self).characters_id@.contains(old_id),
            final(self).characters_id@.len() == old(self).characters_id@.len(),
            final(self).well_formed(),
    {
        if self.owns(new_id) {
            return false;
        }
        match self.position(old_id) {
            None => false,
            Some(i) => {
                self.characters_id.set(i, new_id);
                proof {
                    let before = old(self).characters_id@;
                    let after = self.characters_id@;
                    assert(after == before.update(i as int, new_id));
                    assert(after[i as int] == new_id);
                    assert forall|a: int, b: int|
                        0 <= a < after.len() && 0 <= b < after.len() && a != b implies after[a]
                        != after[b] by {
                        if a != i && b != i {
                            assert(after[a] == before[a] && after[b] == before[b]);
                        } else if a == i {
                            assert(after[b] == before[b]);
                            assert(before.contains(before[b]));
                        } else {
                            assert(after[a] == before[a]);
                            assert(before.contains(before[a]));
                        }
                    }
                    assert forall|k: int| 0 <= k < after.len() implies after[k] != old_id by {
                        if k != i {
                            assert(after[k] == before[k]);
                        }
                    }
                }
                true
            },
        }
    }
}

/// The flag that a stored number stands for: zero is `false`, anything else
/// is `true`.
pub fn bool_from_int(value: u8) -> (out: bool)
    ensures
        out == (value != 0),
{
    value != 0
}

/// The number that a flag is stored as: 1 for `true`, 0 for `false`.
pub fn bool_to_int(value: bool) -> (out: u8)
    ensures
        out == if value { 1u8 } else { 0u8 },
        bool_from_int_spec(out) == value,
{
    if value {
        1
    } else {
        0
    }
}

/// The flag that a stored number stands for.
pub open spec fn bool_from_int_spec(value: u8) -> bool {
    value != 0
}

/// The gender of a character.
#[derive(Clone, Copy, Debug, PartialEq, Eq, Structural)]
pub enum Gender {
    Male,
    Female,
    Other,
}

impl Default for Gender {
    fn default() -> (out: Self)
        ensures
            out == Gender::Male,
    {
        Gender::Male
    }
}

impl Gender {
    /// The name of the gender, as it is shown.
    pub open spec fn spec_name(self) -> Seq<char> {
        match self {
            Gender::Male => "Male"@,
            Gender::Female => "Female"@,
            Gender::Other => "Other"@,
        }
    }

    /// The name of the gender, as it is shown.
    pub fn name(&self) -> (out: String)
        ensures
            out@ == self.spec_name(),
    {
        match self {
            Gender::Male => String::from_str("Male"),
            Gender::Female => String::from_str("Female"),
            Gender::Other => String::from_str("Other"),
        }
    }

    /// The gender that a button's payload selects. Anything but `male` and
    /// `female` selects `Other`.
    pub open spec fn spec_from_key(key: Seq<char>) -> Gender {
        if key == "male"@ {
            Gender::Male
        } else if key == "female"@ {
            Gender::Female
        } else {
            Gender::Other
        }
    }

    /// The gender that a button's payload selects.
    pub fn from_key(key: &str) -> (out: Gender)
        ensures
            out == Self::spec_from_key(key@),
    {
        if crate::text::same_text(key, "male") {
            Gender::Male
        } else if crate::text::same_text(key, "female") {
            Gender::Female
        } else {
            Gender::Other
        }
    }
}

/// The kind of work that a series is.
#[derive(Clone, Copy, Debug, PartialEq, Eq, Structural)]
pub enum Media {
    Anime,
    Game,
    Manga,
    Manhua,
    Manhwa,
    LightNovel,
    VisualNovel,
    Unknown,
}

impl Default for Media {
    fn default() -> (out: Self)
        ensures
            out == Media::Unknown,
    {
        Media::Unknown
    }
}

impl Media {
    /// The name of the kind, as it is shown.
    pub open spec fn spec_name(self) -> Seq<char> {
        match self {
            Media::Anime => "Anime"@,
            Media::Game => "Game"@,
            Media::Manga => "Manga"@,
            Media::Manhua => "Manhua"@,
            Media::Manhwa => "Manhwa"@,
            Media::LightNovel => "Light Novel"@,
            Media::VisualNovel => "Visual Novel"@,
            Media::Unknown => "Unknown"@,
        }
    }

    /// The name of the kind, as it is shown.
    pub fn name(&self) -> (out: String)
        ensures
            out@ == self.spec_name(),
    {
        match self {
            Media::Anime => String::from_str("Anime"),
            Media::Game => String::from_str("Game"),
            Media::Manga => String::from_str("Manga"),
            Media::Manhua => String::from_str("Manhua"),
            Media::Manhwa => String::from_str("Manhwa"),
            Media::LightNovel => String::from_str("Light Novel"),
            Media::VisualNovel => String::from_str("Visual Novel"),
            Media::Unknown => String::from_str("Unknown"),
        }
    }

    /// The key of the kind in button payloads and stored records.
    pub open spec fn spec_key(self) -> Seq<char> {
        match self {
            Media::Anime => "anime"@,
            Media::Game => "game"@,
            Media::Manga => "manga"@,
            Media::Manhua => "manhua"@,
            Media::Manhwa => "manhwa"@,
            Media::LightNovel => "light_novel"@,
            Media::VisualNovel => "visual_novel"@,
            Media::Unknown => "unknown"@,
        }
    }

    /// The key of the kind in button payloads and stored records.
    pub fn key(&self) -> (out: String)
        ensures
            out@ == self.spec_key(),
    {
        match self {
            Media::Anime => String::from_str("anime"),
            Media::Game => String::from_str("game"),
            Media::Manga => String::from_str("manga"),
            Media::Manhua => String::from_str("manhua"),
            Media::Manhwa => String::from_str("manhwa"),
            Media::LightNovel => String::from_str("light_novel"),
            Media::VisualNovel => String::from_str("visual_novel"),
            Media::Unknown => String::from_str("unknown"),
        }
    }

    /// The kind that a button's payload selects. A payload that is no key
    /// selects `Unknown`.
    pub open spec fn spec_from_key(key: Seq<char>) -> Media {
        if key == "anime"@ {
            Media::Anime
        } else if key == "game"@ {
            Media::Game
        } else if key == "manga"@ {
            Media::Manga
        } else if key == "manhua"@ {
            Media::Manhua
        } else if key == "manhwa"@ {
            Media::Manhwa
        } else if key == "light_novel"@ {
            Media::LightNovel
        } else if key == "visual_novel"@ {
            Media::VisualNovel
        } else {
            Media::Unknown
        }
    }

    /// The kind that a button's payload selects.
    pub fn from_key(key: &str) -> (out: Media)
        ensures
            out == Self::spec_from_key(key@),
    {
        if crate::text::same_text(key, "anime") {
            Media::Anime
        } else if crate::text::same_text(key, "game") {
            Media::Game
        } else if crate::text::same_text(key, "manga") {
            Media::Manga
        } else if crate::text::same_text(key, "manhua") {
            Media::Manhua
        } else if crate::text::same_text(key, "manhwa") {
            Media::Manhwa
        } else if crate::text::same_text(key, "light_novel") {
            Media::LightNovel
        } else if crate::text::same_text(key, "visual_novel") {
            Media::VisualNovel
        } else {
            Media::Unknown
        }
    }
}

} // verus!
