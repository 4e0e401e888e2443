//! A map keyed by strings.

use vstd::prelude::*;

verus! {

/// The map that a sequence of entries stands for; of two entries under one key the later counts.
pub open spec fn entries_map<V>(entries: Seq<(String, V)>) -> Map<Seq<char>, V>
    decreases entries.len(),
{
    if entries.len() == 0 {
        Map::empty()
    } else {
        entries_map(entries.drop_last()).insert(entries.last().0@, entries.last().1)
    }
}

/// No two entries share a key.
pub open spec fn distinct_keys<V>(entries: Seq<(String, V)>) -> bool {
    forall|i: int, j: int|
        0 <= i < j < entries.len() ==> #[trigger] entries[i].0@ != #[trigger] entries[j].0@
}

/// A key is in the map exactly when an entry holds it, and with distinct keys that entry's value
/// is the one under it.
pub proof fn lemma_entries_map<V>(entries: Seq<(String, V)>, key: Seq<char>)
    ensures
        entries_map(entries).contains_key(key) <==> exists|i: int|
            0 <= i < entries.len() && #[trigger] entries[i].0@ == key,
        distinct_keys(entries) ==> forall|i: int|
            0 <= i < entries.len() && #[trigger] entries[i].0@ == key ==> entries_map(entries)[key]
                == entries[i].1,
    decreases entries.len(),
{
    if entries.len() > 0 {
        let init = entries.drop_last();
        lemma_entries_map(init, key);
        assert forall|i: int| 0 <= i < init.len() implies #[trigger] init[i] == entries[i] by {}
        if init.len() > 0 && exists|i: int| 0 <= i < init.len() && #[trigger] init[i].0@ == key {
            let i = choose|i: int| 0 <= i < init.len() && #[trigger] init[i].0@ == key;
            assert(entries[i].0@ == key);
        }
        if exists|i: int| 0 <= i < entries.len() && #[trigger] entries[i].0@ == key {
            let i = choose|i: int| 0 <= i < entries.len() && #[trigger] entries[i].0@ == key;
            if i < init.len() {
                assert(init[i].0@ == key);
            }
        }
        if distinct_keys(entries) {
            assert(distinct_keys(init));
            assert forall|i: int| 0 <= i < entries.len() && #[trigger] entries[i].0@ == key implies
                entries_map(entries)[key] == entries[i].1 by {
                if i < init.len() {
                    assert(init[i].0@ == key);
                    assert(entries[init.len() as int].0@ != key);
                }
            }
        }
    }
}

/// The keys of an entry sequence are as many as its entries when they are distinct.
proof fn lemma_entries_map_len<V>(entries: Seq<(String, V)>)
    requires
        distinct_keys(entries),
    ensures
        entries_map(entries).dom().finite(),
        entries_map(entries).len() == entries.len(),
    decreases entries.len(),
{
    if entries.len() > 0 {
        let init = entries.drop_last();
        assert(distinct_keys(init));
        lemma_entries_map_len(init);
        lemma_entries_map(init, entries.last().0@);
        assert(!entries_map(init).contains_key(entries.last().0@)) by {
            if exists|i: int| 0 <= i < init.len() && #[trigger] init[i].0@ == entries.last().0@ {
                let i = choose|i: int|
                    0 <= i < init.len() && #[trigger] init[i].0@ == entries.last().0@;
                assert(entries[i].0@ == entries[entries.len() - 1].0@);
            }
        }
    }
}

/// Replacing the value of an entry inserts it under that entry's key.
proof fn lemma_update_value<V>(entries: Seq<(String, V)>, index: int, value: V)
    requires
        distinct_keys(entries),
        0 <= index < entries.len(),
    ensures
        entries_map(entries.update(index, (entries[index].0, value))) == entries_map(
            entries,
        ).insert(entries[index].0@, value),
{
    let updated = entries.update(index, (entries[index].0, value));
    let key = entries[index].0@;
    assert(distinct_keys(updated));
    assert forall|k: Seq<char>|
        entries_map(updated).contains_key(k) <==> entries_map(entries).insert(
            key,
            value,
        ).contains_key(k) by {
        lemma_entries_map(updated, k);
        lemma_entries_map(entries, k);
        if exists|i: int| 0 <= i < updated.len() && #[trigger] updated[i].0@ == k {
            let i = choose|i: int| 0 <= i < updated.len() && #[trigger] updated[i].0@ == k;
            assert(entries[i].0@ == k);
        }
        if exists|i: int| 0 <= i < entries.len() && #[trigger] entries[i].0@ == k {
            let i = choose|i: int| 0 <= i < entries.len() && #[trigger] entries[i].0@ == k;
            assert(updated[i].0@ == k);
        }
        assert(updated[index].0@ == key);
    }
    assert forall|k: Seq<char>| entries_map(updated).contains_key(k) implies entries_map(updated)[k]
        == entries_map(entries).insert(key, value)[k] by {
        lemma_entries_map(updated, k);
        lemma_entries_map(entries, k);
        let i = choose|i: int| 0 <= i < updated.len() && #[trigger] updated[i].0@ == k;
        assert(entries[i].0@ == k);
        if i != index {
            assert(updated[i].0@ != updated[index].0@);
        }
    }
    assert(entries_map(updated) =~= entries_map(entries).insert(key, value));
}

/// A map from strings to `V`. Each key stands in it once.
#[derive(Debug)]
pub struct StringMap<V> {
    entries: Vec<(String, V)>,
}

impl<V> View for StringMap<V> {
    type V = Map<Seq<char>, V>;

    closed spec fn view(&self) -> Map<Seq<char>, V> {
        entries_map(self.entries@)
    }
}

impl<V> StringMap<V> {
    #[verifier::type_invariant]
    spec fn keys_are_distinct(self) -> bool {
        distinct_keys(self.entries@)
    }

    /// The empty map.
    pub fn new() -> (map: Self)
        ensures
            map@ == Map::<Seq<char>, V>::empty(),
    {
        StringMap { entries: Vec::new() }
    }

    /// The map of a list of entries; of two under one key the later counts.
    pub fn from_entries(entries: Vec<(String, V)>) -> (map: Self)
        ensures
            map@ == entries_map(entries@),
    {
        let mut map = StringMap::new();
        assert(entries@.take(0) =~= Seq::empty());
        for entry in iter: entries.into_iter()
            invariant
                iter.seq() == entries@,
                map@ == entries_map(entries@.take(iter.index())),
        {
            assert(entries@.take(iter.index() + 1).drop_last() =~= entries@.take(iter.index()));
            map.insert(entry.0, entry.1);
        }
        assert(entries@.take(entries@.len() as int) =~= entries@);
        map
    }

    /// The position of the entry under `key`.
    fn position(&self, key: &str) -> (found: Option<usize>)
        ensures
            match found {
                Some(i) => i < self.entries@.len() && self.entries@[i as int].0@ == key@,
                None => forall|i: int|
                    0 <= i < self.entries@.len() ==> #[trigger] self.entries@[i].0@ != key@,
            },
    {
        let mut i: usize = 0;
        while i < self.entries.len()
            invariant
                i <= self.entries@.len(),
                forall|j: int| 0 <= j < i ==> #[trigger] self.entries@[j].0@ != key@,
            decreases self.entries@.len() - i,
        {
            if *self.entries[i].0.as_str() == *key {
                return Some(i);
            }
            i = i + 1;
        }
        None
    }

    /// The value under `key`.
    pub fn get(&self, key: &str) -> (value: Option<&V>)
        ensures
            match value {
                Some(v) => self@.contains_key(key@) && *v == self@[key@],
                None => !self@.contains_key(key@),
            },
    {
        proof {
            use_type_invariant(self);
            lemma_entries_map(self.entries@, key@);
        }
        match self.position(key) {
            Some(i) => Some(&self.entries[i].1),
            None => None,
        }
    }

    /// Whether a value stands under `key`.
    pub fn contains_key(&self, key: &str) -> (found: bool)
        ensures
            found == self@.contains_key(key@),
    {
        match self.get(key) {
            Some(_) => true,
            None => false,
        }
    }

    /// Puts `value` under `key`, in place of what stood there.
    pub fn insert(&mut self, key: String, value: V)
        ensures
            final(self)@ == old(self)@.insert(key@, value),
    {
        proof {
            use_type_invariant(&*self);
            lemma_entries_map(self.entries@, key@);
        }
        let found = self.position(key.as_str());
        let mut entries: Vec<(String, V)> = Vec::new();
        std::mem::swap(&mut self.entries, &mut entries);
        let ghost before = entries@;
        match found {
            Some(i) => {
                proof {
                    lemma_update_value(before, i as int, value);
                }
                let ghost stored = entries@[i as int].0;
                entries[i].1 = value;
                assert(entries@ =~= before.update(i as int, (stored, value)));
            },
            None => {
                entries.push((key, value));
                assert(entries@.drop_last() =~= before);
            },
        }
        self.entries = entries;
    }

    /// The number of keys.
    pub fn len(&self) -> (count: usize)
        ensures
            self@.dom().finite(),
            count == self@.len(),
    {
        proof {
            use_type_invariant(self);
            lemma_entries_map_len(self.entries@);
        }
        self.entries.len()
    }

    /// Whether there is no key.
    pub fn is_empty(&self) -> (empty: bool)
        ensures
            empty == (self@ == Map::<Seq<char>, V>::empty()),
    {
        proof {
            use_type_invariant(self);
            lemma_entries_map_len(self.entries@);
            if self.entries@.len() > 0 {
                lemma_entries_map(self.entries@, self.entries@[0].0@);
            }
        }
        self.entries.len() == 0
    }

    /// The entries, each key once.
    pub fn entries(&self) -> (entries: &Vec<(String, V)>)
        ensures
            distinct_keys(entries@),
            entries_map(entries@) == self@,
    {
        proof {
            use_type_invariant(self);
        }
        &self.entries
    }
}

/// Of the entries of a list that share a key the last counts, and a key that no entry holds is not
/// in the map.
pub proof fn the_last_entry_counts<V>(
    entries: Vec<(String, V)>,
    map: StringMap<V>,
    key: &str,
    value: Option<&V>,
)
    requires
        call_ensures(StringMap::<V>::from_entries, (entries,), map),
        call_ensures(StringMap::<V>::get, (&map, key), value),
    ensures
        value is None <==> forall|i: int|
            0 <= i < entries@.len() ==> (#[trigger] entries@[i]).0@ != key@,
        value matches Some(v) ==> exists|i: int|
            {
                &&& 0 <= i < entries@.len()
                &&& (#[trigger] entries@[i]).0@ == key@
                &&& entries@[i].1 == *v
                &&& forall|j: int| i < j < entries@.len() ==> (#[trigger] entries@[j]).0@ != key@
            },
{
    lemma_entries_map(entries@, key@);
    if entries_map(entries@).contains_key(key@) {
        lemma_last_entry(entries@, key@);
    }
}

/// The value under a key is the one of the last entry that holds it.
pub proof fn lemma_last_entry<V>(entries: Seq<(String, V)>, key: Seq<char>)
    requires
        entries_map(entries).contains_key(key),
    ensures
        exists|i: int|
            {
                &&& 0 <= i < entries.len()
                &&& (#[trigger] entries[i]).0@ == key
                &&& entries[i].1 == entries_map(entries)[key]
                &&& forall|j: int| i < j < entries.len() ==> (#[trigger] entries[j]).0@ != key
            },
    decreases entries.len(),
{
    let last = entries.len() - 1;
    if entries[last].0@ == key {
        assert(entries[last].1 == entries_map(entries)[key]);
    } else {
        let init = entries.drop_last();
        lemma_last_entry(init, key);
        let i = choose|i: int|
            {
                &&& 0 <= i < init.len()
                &&& (#[trigger] init[i]).0@ == key
                &&& init[i].1 == entries_map(init)[key]
                &&& forall|j: int| i < j < init.len() ==> (#[trigger] init[j]).0@ != key
            };
        assert(entries[i] == init[i]);
        assert forall|j: int| i < j < entries.len() implies (#[trigger] entries[j]).0@ != key by {
            if j < last {
                assert(init[j] == entries[j]);
            }
        }
    }
}

/// What is put under a key stands there, and what stands under other keys stays.
pub proof fn what_is_put_under_a_key_stands_there<V>(
    map: &mut StringMap<V>,
    key: String,
    value: V,
    other: Seq<char>,
)
    requires
        call_ensures(StringMap::<V>::insert, (map, key, value), ()),
    ensures
        final(map)@.contains_key(key@),
        final(map)@[key@] == value,
        other != key@ ==> {
            &&& final(map)@.contains_key(other) <==> old(map)@.contains_key(other)
            &&& final(map)@[other] == old(map)@[other]
        },
{
}

/// A map holds a key exactly where a value is found under it, and it lists each key once with that
/// value.
pub proof fn maps_list_what_is_found<V>(
    map: &StringMap<V>,
    key: &str,
    held: bool,
    value: Option<&V>,
    entries: &Vec<(String, V)>,
    empty: bool,
)
    requires
        call_ensures(StringMap::<V>::contains_key, (map, key), held),
        call_ensures(StringMap::<V>::get, (map, key), value),
        call_ensures(StringMap::<V>::entries, (map,), entries),
        call_ensures(StringMap::<V>::is_empty, (map,), empty),
    ensures
        held <==> value is Some,
        value is Some <==> exists|i: int|
            0 <= i < entries@.len() && (#[trigger] entries@[i]).0@ == key@,
        forall|i: int|
            0 <= i < entries@.len() && (#[trigger] entries@[i]).0@ == key@ ==> value is Some
                && entries@[i].1 == *value->Some_0,
        empty <==> entries@.len() == 0,
{
    lemma_entries_map(entries@, key@);
    if entries@.len() > 0 {
        lemma_entries_map(entries@, entries@[0].0@);
        assert(entries_map(entries@).contains_key(entries@[0].0@));
    }
}

/// A map is as long as the list of its entries.
pub proof fn maps_are_as_long_as_their_entries<V>(
    map: &StringMap<V>,
    entries: &Vec<(String, V)>,
    count: usize,
)
    requires
        call_ensures(StringMap::<V>::entries, (map,), entries),
        call_ensures(StringMap::<V>::len, (map,), count),
    ensures
        count == entries@.len(),
{
    lemma_entries_map_len(entries@);
}

} // verus!
