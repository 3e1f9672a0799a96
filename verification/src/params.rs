//! A small map from names to values, both text, that remembers the order in
//! which its names first arrived.

use crate::text::str_equal;
use vstd::prelude::*;

verus! {

/// The position of the first entry at or after `from` whose name is `key`, or
/// `entries.len()` when there is none.
pub open spec fn key_index(entries: Seq<(Seq<char>, Seq<char>)>, key: Seq<char>, from: int) -> int
    decreases entries.len() - from,
{
    if from < 0 || from >= entries.len() {
        entries.len() as int
    } else if entries[from].0 == key {
        from
    } else {
        key_index(entries, key, from + 1)
    }
}

/// The value stored under `key`, if any.
pub open spec fn lookup(entries: Seq<(Seq<char>, Seq<char>)>, key: Seq<char>) -> Option<Seq<char>> {
    let i = key_index(entries, key, 0);
    if i < entries.len() {
        Some(entries[i].1)
    } else {
        None
    }
}

/// The entries after `value` is stored under `key`: an entry of that name
/// keeps its place and takes the new value, a new name goes to the end.
pub open spec fn put(entries: Seq<(Seq<char>, Seq<char>)>, key: Seq<char>, value: Seq<char>) -> Seq<
    (Seq<char>, Seq<char>),
> {
    let i = key_index(entries, key, 0);
    if i < entries.len() {
        entries.update(i, (key, value))
    } else {
        entries.push((key, value))
    }
}

/// The entries after every pair of `pairs` is stored in turn, the first pair
/// first.
pub open spec fn put_all(
    entries: Seq<(Seq<char>, Seq<char>)>,
    pairs: Seq<(Seq<char>, Seq<char>)>,
) -> Seq<(Seq<char>, Seq<char>)>
    decreases pairs.len(),
{
    if pairs.len() == 0 {
        entries
    } else {
        put_all(put(entries, pairs[0].0, pairs[0].1), pairs.drop_first())
    }
}

/// No name stands in two entries.
pub open spec fn distinct_keys(entries: Seq<(Seq<char>, Seq<char>)>) -> bool {
    forall|i: int, j: int| 0 <= i < j < entries.len() ==> entries[i].0 != entries[j].0
}

/// `key_index` is the least position at or after `from` with the name `key`.
pub proof fn lemma_key_index(entries: Seq<(Seq<char>, Seq<char>)>, key: Seq<char>, from: int)
    requires
        0 <= from <= entries.len(),
    ensures
        from <= key_index(entries, key, from) <= entries.len(),
        key_index(entries, key, from) < entries.len() ==> entries[key_index(entries, key, from)].0
            == key,
        forall|j: int| from <= j < key_index(entries, key, from) ==> entries[j].0 != key,
    decreases entries.len() - from,
{
    if from < entries.len() && entries[from].0 != key {
        lemma_key_index(entries, key, from + 1);
    }
}

/// A position that holds `key`, with no earlier one that does, is `key_index`.
pub proof fn lemma_key_index_is(entries: Seq<(Seq<char>, Seq<char>)>, key: Seq<char>, at: int)
    requires
        0 <= at <= entries.len(),
        at < entries.len() ==> entries[at].0 == key,
        forall|j: int| 0 <= j < at ==> entries[j].0 != key,
    ensures
        key_index(entries, key, 0) == at,
{
    lemma_key_index(entries, key, 0);
}

/// The last write wins: after `put`, the name holds the new value, and every
/// other name holds what it held before.
pub proof fn lemma_put_lookup(
    entries: Seq<(Seq<char>, Seq<char>)>,
    key: Seq<char>,
    value: Seq<char>,
    other: Seq<char>,
)
    ensures
        lookup(put(entries, key, value), key) == Some(value),
        other != key ==> lookup(put(entries, key, value), other) == lookup(entries, other),
{
    let after = put(entries, key, value);
    let i = key_index(entries, key, 0);
    lemma_key_index(entries, key, 0);
    lemma_key_index_is(after, key, i);
    if other != key {
        let j = key_index(entries, other, 0);
        lemma_key_index(entries, other, 0);
        lemma_key_index_is(after, other, if j < entries.len() {
            j
        } else {
            after.len() as int
        });
    }
}

/// `put` keeps the names distinct.
pub proof fn lemma_put_distinct(entries: Seq<(Seq<char>, Seq<char>)>, key: Seq<char>, value: Seq<char>)
    requires
        distinct_keys(entries),
    ensures
        distinct_keys(put(entries, key, value)),
{
    lemma_key_index(entries, key, 0);
}

/// A map from names to values that keeps its entries in the order in which
/// their names were first stored.
#[derive(Debug)]
pub struct ParamMap {
    items: Vec<(String, String)>,
}

impl View for ParamMap {
    type V = Seq<(Seq<char>, Seq<char>)>;

    /// The entries, each a name and its value, in order.
    closed spec fn view(&self) -> Seq<(Seq<char>, Seq<char>)> {
        entries_of(self.items@)
    }
}

spec fn entries_of(items: Seq<(String, String)>) -> Seq<(Seq<char>, Seq<char>)> {
    Seq::new(items.len(), |i: int| (items[i].0@, items[i].1@))
}

impl ParamMap {
    #[verifier::type_invariant]
    spec fn names_distinct(self) -> bool {
        distinct_keys(self@)
    }

    /// The empty map.
    pub fn new() -> (r: ParamMap)
        ensures
            r@ == Seq::<(Seq<char>, Seq<char>)>::empty(),
    {
        let r = ParamMap { items: Vec::new() };
        assert(r@ =~= Seq::<(Seq<char>, Seq<char>)>::empty());
        r
    }

    /// The number of entries, each under a name of its own.
    pub fn len(&self) -> (r: usize)
        ensures
            r == self@.len(),
            distinct_keys(self@),
    {
        proof {
            use_type_invariant(self);
        }
        self.items.len()
    }

    /// Whether the map has no entry.
    pub fn is_empty(&self) -> (r: bool)
        ensures
            r == (self@.len() == 0),
    {
        self.items.len() == 0
    }

    /// The name and the value of the entry at position `i`, if there is one.
    pub fn entry(&self, i: usize) -> (r: Option<(&String, &String)>)
        ensures
            i >= self@.len() ==> r is None,
            i < self@.len() ==> (r matches Some(e) && (e.0@, e.1@) == self@[i as int]),
    {
        if i < self.items.len() {
            Some((&self.items[i].0, &self.items[i].1))
        } else {
            None
        }
    }

    fn find(&self, key: &str) -> (r: usize)
        ensures
            r == key_index(self@, key@, 0),
            r <= self@.len(),
    {
        let mut i: usize = 0;
        while i < self.items.len()
            invariant
                i <= self.items.len(),
                self@.len() == self.items.len(),
                forall|j: int| 0 <= j < i ==> self@[j].0 != key@,
            decreases self.items.len() - i,
        {
            if str_equal(self.items[i].0.as_str(), key) {
                proof {
                    lemma_key_index_is(self@, key@, i as int);
                }
                return i;
            }
            i += 1;
        }
        proof {
            lemma_key_index_is(self@, key@, i as int);
        }
        i
    }

    /// The value stored under `key`, if any.
    pub fn get(&self, key: &str) -> (r: Option<&String>)
        ensures
            match r {
                Some(v) => lookup(self@, key@) == Some(v@),
                None => lookup(self@, key@) is None,
            },
    {
        let i = self.find(key);
        if i < self.items.len() {
            Some(&self.items[i].1)
        } else {
            None
        }
    }

    /// Whether a value is stored under `key`.
    pub fn contains_key(&self, key: &str) -> (r: bool)
        ensures
            r == lookup(self@, key@) is Some,
    {
        let i = self.find(key);
        i < self.items.len()
    }

    /// Stores `value` under `key`. A value already stored under that name is
    /// replaced where it stands; a new name is added at the end.
    pub fn insert(&mut self, key: &str, value: &str)
        ensures
            final(self)@ == put(old(self)@, key@, value@),
            distinct_keys(final(self)@),
    {
        proof {
            use_type_invariant(&*self);
            lemma_put_distinct(self@, key@, value@);
        }
        let i = self.find(key);
        let entry = (String::from_str(key), String::from_str(value));
        let ghost before = self@;
        let mut items: Vec<(String, String)> = Vec::new();
        core::mem::swap(&mut self.items, &mut items);
        if i < items.len() {
            items.set(i, entry);
        } else {
            items.push(entry);
        }
        assert(entries_of(items@) =~= put(before, key@, value@));
        self.items = items;
    }
}

} // verus!
