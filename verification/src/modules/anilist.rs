//! What was fetched about characters from the catalogue, kept for a while.
//!
//! The cache holds a bounded number of entries, by the number of the
//! character. When it is full, a new entry takes the place of the one that
//! has been there longest.

use std::collections::HashMap;
use vstd::prelude::*;
use vstd::std_specs::hash::*;
use vstd::string::*;

verus! {

broadcast use {vstd::std_specs::hash::group_hash_axioms};

/// What is kept of a character of the catalogue.
#[derive(Clone, Debug)]
pub struct Entry {
    pub id: i64,
    /// The address of the large image.
    pub image_url: String,
    /// The image, once it was fetched.
    pub image: Option<Vec<u8>>,
}

/// The entries that are kept, and the order in which they came.
pub struct Anilist {
    capacity: usize,
    characters: HashMap<i64, Entry>,
    order: Vec<i64>,
}

impl Anilist {
    /// The entries that are kept, by the number of the character.
    pub closed spec fn kept(&self) -> Map<i64, Entry> {
        self.characters@
    }

    /// The numbers of the characters that are kept, the one that has been
    /// there longest first.
    pub closed spec fn order(&self) -> Seq<i64> {
        self.order@
    }

    /// The number of entries that the cache may hold.
    pub closed spec fn capacity(&self) -> nat {
        self.capacity as nat
    }

    /// The cache holds no more entries than it may, each under the number
    /// of its character, and the order names each of them once.
    pub closed spec fn well_formed(&self) -> bool {
        &&& self.order@.len() <= self.capacity
        &&& self.order@.no_duplicates()
        &&& forall|id: i64| #[trigger] self.characters@.contains_key(id) <==> self.order@.contains(id)
        &&& forall|id: i64| #[trigger]
            self.characters@.contains_key(id) ==> self.characters@[id].id == id
    }

    /// An empty cache for `capacity` entries.
    pub fn new(capacity: usize) -> (out: Self)
        ensures
            out.well_formed(),
            out.capacity() == capacity,
            out.kept() == Map::<i64, Entry>::empty(),
            out.order() == Seq::<i64>::empty(),
    {
        Anilist { capacity, characters: HashMap::new(), order: Vec::new() }
    }

    /// The number of characters that are kept.
    pub fn char_count(&self) -> (out: usize)
        ensures
            out == self.order().len(),
    {
        self.order.len()
    }

    /// The address of the image of character `id`, if the character is
    /// kept.
    pub fn image_url(&self, id: i64) -> (out: Option<String>)
        ensures
            match out {
                Some(url) => self.kept().contains_key(id) && url@ == self.kept()[id].image_url@,
                None => !self.kept().contains_key(id),
            },
    {
        match self.characters.get(&id) {
            Some(entry) => Some(String::from_str(entry.image_url.as_str())),
            None => None,
        }
    }

    /// The image of character `id`, if it is kept.
    pub fn image(&self, id: i64) -> (out: Option<Vec<u8>>)
        ensures
            match out {
                Some(bytes) => self.kept().contains_key(id) && self.kept()[id].image is Some
                    && bytes@ == self.kept()[id].image->0@,
                None => !self.kept().contains_key(id) || self.kept()[id].image is None,
            },
    {
        match self.characters.get(&id) {
            Some(entry) => match &entry.image {
                Some(bytes) => {
                    let mut copy: Vec<u8> = Vec::new();
                    let mut k: usize = 0;
                    while k < bytes.len()
                        invariant
                            k <= bytes@.len(),
                            copy@ == bytes@.take(k as int),
                        decreases bytes.len() - k,
                    {
                        copy.push(bytes[k]);
                        assert(bytes@.take(k as int).push(bytes@[k as int]) =~= bytes@.take(k + 1));
                        k = k + 1;
                    }
                    assert(bytes@.take(bytes@.len() as int) =~= bytes@);
                    Some(copy)
                },
                None => None,
            },
            None => None,
        }
    }

    /// Whether the image of character `id` is kept.
    pub fn has_image(&self, id: i64) -> (out: bool)
        ensures
            out == (self.kept().contains_key(id) && self.kept()[id].image is Some),
    {
        match self.characters.get(&id) {
            Some(entry) => entry.image.is_some(),
            None => false,
        }
    }

    /// The entries after `entry` was kept, in a cache for `capacity`
    /// entries whose order is `order`.
    pub open spec fn kept_after(
        kept: Map<i64, Entry>,
        order: Seq<i64>,
        capacity: nat,
        entry: Entry,
    ) -> Map<i64, Entry> {
        if capacity == 0 {
            kept
        } else if kept.contains_key(entry.id) || order.len() < capacity {
            kept.insert(entry.id, entry)
        } else {
            kept.remove(order[0]).insert(entry.id, entry)
        }
    }

    /// The order after `entry` was kept.
    pub open spec fn order_after(
        kept: Map<i64, Entry>,
        order: Seq<i64>,
        capacity: nat,
        entry: Entry,
    ) -> Seq<i64> {
        if capacity == 0 || kept.contains_key(entry.id) {
            order
        } else if order.len() < capacity {
            order.push(entry.id)
        } else {
            order.drop_first().push(entry.id)
        }
    }

    /// Keeps `entry`. An entry for the same character is replaced, and
    /// keeps its place in the order. Else the entry becomes the newest, and
    /// where the cache is full the entry that has been there longest
    /// leaves. A cache for no entries keeps nothing.
    pub fn keep(&mut self, entry: Entry)
        requires
            old(self).well_formed(),
        ensures
            final(self).well_formed(),
            final(self).capacity() == old(self).capacity(),
            final(self).kept() == Self::kept_after(
                old(self).kept(),
                old(self).order(),
                old(self).capacity(),
                entry,
            ),
            final(self).order() == Self::order_after(
                old(self).kept(),
                old(self).order(),
                old(self).capacity(),
                entry,
            ),
    {
        if self.capacity == 0 {
            return ;
        }
        let id = entry.id;
        let ghost kept = self.characters@;
        let ghost order = self.order@;
        if self.characters.contains_key(&id) {
            self.characters.insert(id, entry);
            assert forall|other: i64| #[trigger]
                self.characters@.contains_key(other) <==> self.order@.contains(other) by {
                if other == id {
                    assert(kept.contains_key(id));
                } else {
                    assert(kept.contains_key(other) <==> order.contains(other));
                }
            }
            return ;
        }
        assert(!order.contains(id));
        if self.order.len() >= self.capacity {
            let oldest = self.order[0];
            assert(order.contains(oldest));
            self.characters.remove(&oldest);
            self.order.remove(0);
            assert(self.order@ =~= order.drop_first());
        }
        let ghost middle_kept = self.characters@;
        let ghost middle = self.order@;
        assert(middle.no_duplicates()) by {
            assert forall|a: int, b: int|
                0 <= a < middle.len() && 0 <= b < middle.len() && a != b implies middle[a]
                != middle[b] by {
                if order.len() >= self.capacity {
                    assert(middle[a] == order[a + 1]);
                    assert(middle[b] == order[b + 1]);
                }
            }
        }
        assert forall|other: i64| #[trigger]
            middle_kept.contains_key(other) <==> middle.contains(other) by {
            assert(kept.contains_key(other) <==> order.contains(other));
            if order.len() >= self.capacity {
                if middle.contains(other) {
                    let k = choose|k: int| 0 <= k < middle.len() && middle[k] == other;
                    assert(order[k + 1] == other);
                    assert(order.contains(other));
                    assert(other != order[0]);
                }
                if middle_kept.contains_key(other) {
                    assert(other != order[0]);
                    let k = choose|k: int| 0 <= k < order.len() && order[k] == other;
                    assert(k > 0);
                    assert(middle[k - 1] == other);
                }
            }
        }
        assert(!middle.contains(id)) by {
            if middle.contains(id) {
                assert(middle_kept.contains_key(id));
            }
        }
        self.order.push(id);
        self.characters.insert(id, entry);
        assert(self.order@ == middle.push(id));
        assert forall|a: int, b: int|
            0 <= a < self.order@.len() && 0 <= b < self.order@.len() && a != b implies self.order@[a]
            != self.order@[b] by {
            if a < middle.len() && b < middle.len() {
                assert(middle[a] != middle[b]);
            } else if a < middle.len() {
                assert(middle.contains(middle[a]));
            } else {
                assert(middle.contains(middle[b]));
            }
        }
        assert forall|other: i64| #[trigger]
            self.characters@.contains_key(other) <==> self.order@.contains(other) by {
            if other == id {
                assert(self.order@[middle.len() as int] == id);
            } else {
                assert(middle_kept.contains_key(other) <==> middle.contains(other));
                if middle.contains(other) {
                    let k = choose|k: int| 0 <= k < middle.len() && middle[k] == other;
                    assert(self.order@[k] == other);
                }
                if self.order@.contains(other) {
                    let k = choose|k: int| 0 <= k < self.order@.len() && self.order@[k] == other;
                    assert(k < middle.len());
                    assert(middle[k] == other);
                }
            }
        }
    }
}

/// An entry that was kept is there afterwards, in a cache that may hold
/// anything; and keeping an entry lets at most the oldest entry go.
pub proof fn lemma_kept_is_found(
    kept: Map<i64, Entry>,
    order: Seq<i64>,
    capacity: nat,
    entry: Entry,
    other: i64,
)
    requires
        capacity > 0,
    ensures
        Anilist::kept_after(kept, order, capacity, entry).contains_key(entry.id),
        Anilist::kept_after(kept, order, capacity, entry)[entry.id] == entry,
        kept.contains_key(other) && other != entry.id && (order.len() == 0 || other != order[0])
            ==> Anilist::kept_after(kept, order, capacity, entry).contains_key(other)
            && Anilist::kept_after(kept, order, capacity, entry)[other] == kept[other],
{
}

} // verus!
