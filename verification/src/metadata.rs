//! The decoded metadata of one document: keys with optional values, each
//! key at most once, in the order in which the keys first came.

use crate::model::JsonValue;
use crate::text::{first_match, is_first_match, lemma_first_match_absent, lemma_first_match_found};
use vstd::prelude::*;
use vstd::string::*;

verus! {

/// A key of the metadata with the value that was inferred for it.
#[derive(Debug, PartialEq)]
pub struct MetadataEntry {
    pub key: String,
    pub value: Option<JsonValue>,
}

/// The keys of a list of entries, in their order.
pub open spec fn entry_keys(entries: Seq<(Seq<char>, Option<JsonValue>)>) -> Seq<Seq<char>> {
    Seq::new(entries.len(), |i: int| entries[i].0)
}

/// No key stands twice in the list.
pub open spec fn distinct_keys(entries: Seq<(Seq<char>, Option<JsonValue>)>) -> bool {
    forall|i: int, j: int|
        0 <= i < j < entries.len() ==> (#[trigger] entries[i]).0 != (#[trigger] entries[j]).0
}

/// The list after `key` got `value`: in the place of the key where the list
/// holds it, at the end where it does not.
pub open spec fn with_entry(
    entries: Seq<(Seq<char>, Option<JsonValue>)>,
    key: Seq<char>,
    value: Option<JsonValue>,
) -> Seq<(Seq<char>, Option<JsonValue>)> {
    match first_match(entry_keys(entries), key) {
        Some(i) => entries.update(i, (key, value)),
        None => entries.push((key, value)),
    }
}

/// The list that holds the first `n` of `pairs`, put in one after the other.
pub open spec fn collected(pairs: Seq<(Seq<char>, Option<JsonValue>)>, n: int) -> Seq<
    (Seq<char>, Option<JsonValue>),
>
    decreases n,
{
    if n <= 0 {
        Seq::empty()
    } else {
        with_entry(collected(pairs, n - 1), pairs[n - 1].0, pairs[n - 1].1)
    }
}

/// The value that the list holds for `key`, if it holds the key.
pub open spec fn value_of(entries: Seq<(Seq<char>, Option<JsonValue>)>, key: Seq<char>) -> Option<
    Option<JsonValue>,
> {
    match first_match(entry_keys(entries), key) {
        Some(i) => Some(entries[i].1),
        None => None,
    }
}

/// What a list of owned pairs holds, keys by their characters.
pub open spec fn pairs_view(pairs: Seq<(String, Option<JsonValue>)>) -> Seq<
    (Seq<char>, Option<JsonValue>),
> {
    Seq::new(pairs.len(), |i: int| (pairs[i].0@, pairs[i].1))
}

/// What a list of entries holds, keys by their characters.
pub open spec fn entries_view(entries: Seq<MetadataEntry>) -> Seq<(Seq<char>, Option<JsonValue>)> {
    Seq::new(entries.len(), |i: int| (entries[i].key@, entries[i].value))
}

/// Putting an entry into a list without repeated keys leaves it so.
pub proof fn lemma_with_entry_distinct(
    entries: Seq<(Seq<char>, Option<JsonValue>)>,
    key: Seq<char>,
    value: Option<JsonValue>,
)
    requires
        distinct_keys(entries),
    ensures
        distinct_keys(with_entry(entries, key, value)),
{
    let keys = entry_keys(entries);
    let after = with_entry(entries, key, value);
    match first_match(keys, key) {
        Some(i) => {
            assert(is_first_match(keys, key, i));
            assert forall|a: int, b: int| 0 <= a < b < after.len() implies (#[trigger] after[a]).0 != (
            #[trigger] after[b]).0 by {
                assert(entries[a].0 != entries[b].0);
                assert(keys[i] == entries[i].0);
            }
        },
        None => {
            assert forall|a: int, b: int| 0 <= a < b < after.len() implies (#[trigger] after[a]).0 != (
            #[trigger] after[b]).0 by {
                if b < entries.len() {
                    assert(entries[a].0 != entries[b].0);
                } else {
                    assert(!is_first_match(keys, key, a));
                    lemma_absent_everywhere(keys, key, a);
                    assert(keys[a] == entries[a].0);
                }
            }
        },
    }
}

/// Where a key has no first place, it stands at no place.
pub proof fn lemma_absent_everywhere(keys: Seq<Seq<char>>, key: Seq<char>, a: int)
    requires
        first_match(keys, key) is None,
        0 <= a < keys.len(),
    ensures
        keys[a] != key,
    decreases a,
{
    if keys[a] == key {
        if forall|j: int| 0 <= j < a ==> #[trigger] keys[j] != key {
            assert(is_first_match(keys, key, a));
        } else {
            let j = choose|j: int| 0 <= j < a && #[trigger] keys[j] == key;
            lemma_absent_everywhere(keys, key, j);
        }
    }
}

/// The metadata that was inferred for one document.
pub struct Metadata {
    entries: Vec<MetadataEntry>,
}

impl View for Metadata {
    type V = Seq<(Seq<char>, Option<JsonValue>)>;

    closed spec fn view(&self) -> Seq<(Seq<char>, Option<JsonValue>)> {
        entries_view(self.entries@)
    }
}

impl Metadata {
    #[verifier::type_invariant]
    spec fn no_key_twice(self) -> bool {
        distinct_keys(entries_view(self.entries@))
    }

    /// Metadata without any key.
    pub fn new() -> (metadata: Metadata)
        ensures
            metadata@ == Seq::<(Seq<char>, Option<JsonValue>)>::empty(),
    {
        let metadata = Metadata { entries: Vec::new() };
        assert(metadata@ =~= Seq::empty());
        metadata
    }

    /// The number of keys.
    pub fn len(&self) -> (n: usize)
        ensures
            n == self@.len(),
    {
        self.entries.len()
    }

    /// The place of `key` among the entries.
    fn position(&self, key: &String) -> (place: Option<usize>)
        ensures
            place is Some ==> place->Some_0 < self.entries@.len(),
            match place {
                Some(i) => first_match(entry_keys(self@), key@) == Some(i as int),
                None => first_match(entry_keys(self@), key@) is None,
            },
    {
        let ghost keys = entry_keys(self@);
        let mut i: usize = 0;
        while i < self.entries.len()
            invariant
                0 <= i <= self.entries@.len(),
                keys == entry_keys(self@),
                forall|j: int| 0 <= j < i ==> #[trigger] keys[j] != key@,
            decreases self.entries@.len() - i,
        {
            if self.entries[i].key == *key {
                proof {
                    assert(keys[i as int] == key@);
                    lemma_first_match_found(keys, key@, i as int);
                }
                return Some(i);
            }
            i = i + 1;
        }
        proof {
            lemma_first_match_absent(keys, key@);
        }
        None
    }

    /// Gives `key` the value `value`, in place of the one it had, if any.
    pub fn insert(&mut self, key: String, value: Option<JsonValue>)
        ensures
            final(self)@ == with_entry(old(self)@, key@, value),
    {
        proof {
            use_type_invariant(&*self);
            lemma_with_entry_distinct(self@, key@, value);
        }
        let place = self.position(&key);
        let ghost before = self@;
        let mut taken = Metadata { entries: Vec::new() };
        assert(entries_view(taken.entries@) =~= Seq::empty());
        core::mem::swap(self, &mut taken);
        let mut entries = taken.entries;
        match place {
            Some(i) => {
                entries.set(i, MetadataEntry { key, value });
                assert(entries_view(entries@) =~= before.update(i as int, (key@, value)));
            },
            None => {
                entries.push(MetadataEntry { key, value });
                assert(entries_view(entries@) =~= before.push((key@, value)));
            },
        }
        *self = Metadata { entries };
    }

    /// The value of `key`, if the metadata holds the key.
    pub fn get(&self, key: &str) -> (value: Option<&Option<JsonValue>>)
        ensures
            match value {
                Some(v) => value_of(self@, key@) == Some(*v),
                None => value_of(self@, key@) is None,
            },
    {
        let owned = String::from_str(key);
        match self.position(&owned) {
            Some(i) => Some(&self.entries[i].value),
            None => None,
        }
    }

    /// Metadata from a list of pairs, put in one after the other, so that of
    /// two pairs with one key the later one gives the value.
    pub fn from_pairs(pairs: Vec<(String, Option<JsonValue>)>) -> (metadata: Metadata)
        ensures
            metadata@ == collected(pairs_view(pairs@), pairs@.len() as int),
    {
        let ghost all = pairs_view(pairs@);
        let mut pairs = pairs;
        let mut metadata = Metadata::new();
        let ghost mut done: int = 0;
        while pairs.len() > 0
            invariant
                0 <= done <= all.len(),
                pairs_view(pairs@) == all.subrange(done, all.len() as int),
                metadata@ == collected(all, done),
            decreases pairs@.len(),
        {
            let ghost owned = pairs@;
            let ghost before = pairs_view(owned);
            let ghost rest = all.subrange(done, all.len() as int);
            assert(before.len() == rest.len());
            let pair = pairs.remove(0);
            assert(pair == owned[0]);
            assert(before[0] == rest[0]);
            assert(pairs_view(pairs@) =~= all.subrange(done + 1, all.len() as int)) by {
                assert forall|k: int| 0 <= k < pairs@.len() implies pairs_view(pairs@)[k] == all[done
                    + 1 + k] by {
                    assert(pairs@[k] == owned[k + 1]);
                    assert(before[k + 1] == rest[k + 1]);
                }
            }
            metadata.insert(pair.0, pair.1);
            proof {
                done = done + 1;
            }
        }
        assert(pairs_view(pairs@).len() == 0);
        metadata
    }

    /// The entries, in their order.
    pub fn into_entries(self) -> (entries: Vec<MetadataEntry>)
        ensures
            entries_view(entries@) == self@,
            distinct_keys(self@),
    {
        proof {
            use_type_invariant(&self);
        }
        self.entries
    }
}

} // verus!
