//! The property set of a service: unordered text pairs with unique keys.

use vstd::prelude::*;
use crate::encoding::encodable;
use crate::encoding::is_encodable;

verus! {

/// The mapping that a list of pairs stands for when it is read front to back
/// and a later pair replaces an earlier one with the same key.
spec fn fold_map(entries: Seq<(String, String)>) -> Map<Seq<char>, Seq<char>>
    decreases entries.len(),
{
    if entries.len() == 0 {
        Map::empty()
    } else {
        fold_map(entries.drop_last()).insert(entries.last().0@, entries.last().1@)
    }
}

/// No key occurs twice in the list.
spec fn distinct_keys(entries: Seq<(String, String)>) -> bool {
    forall|i: int, j: int| 0 <= i < j < entries.len() ==> entries[i].0@ != entries[j].0@
}

proof fn lemma_distinct_rest(entries: Seq<(String, String)>)
    requires
        distinct_keys(entries),
        entries.len() > 0,
    ensures
        distinct_keys(entries.drop_last()),
{
    let rest = entries.drop_last();
    assert forall|a: int, b: int| 0 <= a < b < rest.len() implies rest[a].0@ != rest[b].0@ by {
        assert(entries[a].0@ != entries[b].0@);
    }
}

proof fn lemma_fold_contains(entries: Seq<(String, String)>, key: Seq<char>)
    ensures
        fold_map(entries).contains_key(key) <==> exists|i: int|
            0 <= i < entries.len() && #[trigger] entries[i].0@ == key,
    decreases entries.len(),
{
    if entries.len() > 0 {
        let rest = entries.drop_last();
        lemma_fold_contains(rest, key);
        if fold_map(entries).contains_key(key) {
            if entries.last().0@ == key {
                assert(entries[entries.len() - 1].0@ == key);
            } else {
                let i = choose|i: int| 0 <= i < rest.len() && #[trigger] rest[i].0@ == key;
                assert(entries[i].0@ == key);
            }
        }
        if exists|i: int| 0 <= i < entries.len() && #[trigger] entries[i].0@ == key {
            let i = choose|i: int| 0 <= i < entries.len() && #[trigger] entries[i].0@ == key;
            if i < rest.len() {
                assert(rest[i].0@ == key);
            }
        }
    }
}

proof fn lemma_fold_value(entries: Seq<(String, String)>, i: int)
    requires
        distinct_keys(entries),
        0 <= i < entries.len(),
    ensures
        fold_map(entries).contains_key(entries[i].0@),
        fold_map(entries)[entries[i].0@] == entries[i].1@,
    decreases entries.len(),
{
    let rest = entries.drop_last();
    if i < entries.len() - 1 {
        lemma_distinct_rest(entries);
        lemma_fold_value(rest, i);
        assert(rest[i] == entries[i]);
        assert(entries[i].0@ != entries[entries.len() - 1].0@);
    }
}

proof fn lemma_fold_len(entries: Seq<(String, String)>)
    requires
        distinct_keys(entries),
    ensures
        fold_map(entries).dom().finite(),
        fold_map(entries).dom().len() == entries.len(),
    decreases entries.len(),
{
    if entries.len() > 0 {
        let rest = entries.drop_last();
        let last = entries.last();
        lemma_distinct_rest(entries);
        lemma_fold_len(rest);
        lemma_fold_contains(rest, last.0@);
        if fold_map(rest).contains_key(last.0@) {
            let i = choose|i: int| 0 <= i < rest.len() && #[trigger] rest[i].0@ == last.0@;
            assert(entries[i].0@ == entries[entries.len() - 1].0@);
        }
        assert(fold_map(entries).dom() =~= fold_map(rest).dom().insert(last.0@));
    } else {
        assert(fold_map(entries).dom() =~= Set::<Seq<char>>::empty());
    }
}

proof fn lemma_fold_push(entries: Seq<(String, String)>, pair: (String, String))
    ensures
        fold_map(entries.push(pair)) == fold_map(entries).insert(pair.0@, pair.1@),
{
    assert(entries.push(pair).drop_last() =~= entries);
}

proof fn lemma_fold_update(entries: Seq<(String, String)>, i: int, pair: (String, String))
    requires
        distinct_keys(entries),
        0 <= i < entries.len(),
        pair.0@ == entries[i].0@,
    ensures
        fold_map(entries.update(i, pair)) =~= fold_map(entries).insert(pair.0@, pair.1@),
        distinct_keys(entries.update(i, pair)),
    decreases entries.len(),
{
    let updated = entries.update(i, pair);
    let rest = entries.drop_last();
    assert(distinct_keys(updated)) by {
        assert forall|a: int, b: int| 0 <= a < b < updated.len() implies updated[a].0@
            != updated[b].0@ by {
            assert(entries[a].0@ != entries[b].0@);
        }
    }
    if i == entries.len() - 1 {
        assert(updated.drop_last() =~= rest);
    } else {
        lemma_distinct_rest(entries);
        lemma_fold_update(rest, i, pair);
        assert(updated.drop_last() =~= rest.update(i, pair));
        assert(updated.last() == entries.last());
        assert(entries[i].0@ != entries[entries.len() - 1].0@);
    }
}

/// Holds if every key and every value of a mapping can be handed to the
/// runtime whole.
pub open spec fn encodable_pairs(pairs: Map<Seq<char>, Seq<char>>) -> bool {
    forall|key: Seq<char>| #[trigger]
        pairs.contains_key(key) ==> encodable(key) && encodable(pairs[key])
}

/// An unordered set of key/value pairs of text. Keys are unique: setting a key
/// that is present replaces its value.
#[derive(Debug)]
pub struct Properties {
    entries: Vec<(String, String)>,
}

impl View for Properties {
    type V = Map<Seq<char>, Seq<char>>;

    /// The mapping from each key to its value.
    closed spec fn view(&self) -> Map<Seq<char>, Seq<char>> {
        fold_map(self.entries@)
    }
}

impl Properties {
    /// No key is stored twice.
    #[verifier::type_invariant]
    pub closed spec fn wf(&self) -> bool {
        distinct_keys(self.entries@)
    }

    /// The number of stored pairs.
    pub closed spec fn spec_len(&self) -> nat {
        self.entries@.len()
    }

    /// The key of the pair at a position of the enumeration.
    pub closed spec fn key_at(&self, i: int) -> Seq<char> {
        self.entries@[i].0@
    }

    /// The value of the pair at a position of the enumeration.
    pub closed spec fn value_at(&self, i: int) -> Seq<char> {
        self.entries@[i].1@
    }

    /// The enumeration by position lists the mapping exactly: every position
    /// holds a pair of the mapping, no key is listed twice, and every key of
    /// the mapping is listed.
    pub proof fn lemma_enumeration(&self)
        requires
            self.wf(),
        ensures
            self@.dom().finite(),
            self@.dom().len() == self.spec_len(),
            forall|i: int|
                0 <= i < self.spec_len() ==> self@.contains_key(#[trigger] self.key_at(i))
                    && self@[self.key_at(i)] == self.value_at(i),
            forall|i: int, j: int|
                0 <= i < j < self.spec_len() ==> self.key_at(i) != self.key_at(j),
            forall|key: Seq<char>| #[trigger]
                self@.contains_key(key) ==> exists|i: int|
                    0 <= i < self.spec_len() && self.key_at(i) == key,
    {
        let entries = self.entries@;
        lemma_fold_len(entries);
        assert forall|i: int| 0 <= i < self.spec_len() implies self@.contains_key(
            #[trigger] self.key_at(i),
        ) && self@[self.key_at(i)] == self.value_at(i) by {
            lemma_fold_value(entries, i);
        }
        assert forall|key: Seq<char>| #[trigger] self@.contains_key(key) implies exists|i: int|
            0 <= i < self.spec_len() && self.key_at(i) == key by {
            lemma_fold_contains(entries, key);
            let i = choose|i: int| 0 <= i < entries.len() && #[trigger] entries[i].0@ == key;
            assert(self.key_at(i) == key);
        }
    }

    /// Creates an empty property set.
    pub fn new() -> (properties: Self)
        ensures
            properties@ == Map::<Seq<char>, Seq<char>>::empty(),
            properties.spec_len() == 0,
    {
        Properties { entries: Vec::new() }
    }

    /// The number of pairs.
    pub fn len(&self) -> (n: usize)
        ensures
            n == self.spec_len(),
            n == self@.dom().len(),
            self@.dom().finite(),
    {
        proof {
            use_type_invariant(self);
            lemma_fold_len(self.entries@);
        }
        self.entries.len()
    }

    /// Whether the set holds no pair.
    pub fn is_empty(&self) -> (empty: bool)
        ensures
            empty == (self@ == Map::<Seq<char>, Seq<char>>::empty()),
    {
        proof {
            use_type_invariant(self);
            lemma_fold_len(self.entries@);
            if self.entries@.len() == 0 {
                assert(self@ =~= Map::<Seq<char>, Seq<char>>::empty());
            }
        }
        self.entries.len() == 0
    }

    /// The position of a key in the enumeration, if it is present.
    fn position(&self, key: &String) -> (found: Option<usize>)
        ensures
            match found {
                Some(i) => i < self.entries@.len() && self.entries@[i as int].0@ == key@,
                None => forall|j: int| 0 <= j < self.entries@.len() ==> self.entries@[j].0@ != key@,
            },
    {
        let mut i: usize = 0;
        while i < self.entries.len()
            invariant
                i <= self.entries@.len(),
                forall|j: int| 0 <= j < i ==> self.entries@[j].0@ != key@,
            decreases self.entries@.len() - i,
        {
            if self.entries[i].0 == *key {
                return Some(i);
            }
            i = i + 1;
        }
        None
    }

    /// Whether a key is present.
    pub fn contains_key(&self, key: &str) -> (present: bool)
        ensures
            present == self@.contains_key(key@),
    {
        let owned = key.to_string();
        let found = self.position(&owned);
        proof {
            lemma_fold_contains(self.entries@, key@);
        }
        found.is_some()
    }

    /// The value stored under a key, if the key is present.
    pub fn get(&self, key: &str) -> (value: Option<&str>)
        ensures
            match value {
                Some(text) => self@.contains_key(key@) && text@ == self@[key@],
                None => !self@.contains_key(key@),
            },
    {
        let owned = key.to_string();
        match self.position(&owned) {
            Some(i) => {
                proof {
                    use_type_invariant(self);
                    lemma_fold_value(self.entries@, i as int);
                }
                Some(self.entries[i].1.as_str())
            },
            None => {
                proof {
                    lemma_fold_contains(self.entries@, key@);
                }
                None
            },
        }
    }

    /// Stores a value under a key. A value that the key had before is
    /// replaced; all other pairs stay as they are.
    pub fn set(&mut self, key: &str, value: &str)
        ensures
            final(self)@ == old(self)@.insert(key@, value@),
    {
        proof {
            use_type_invariant(&*self);
        }
        let owned_key = key.to_string();
        let owned_value = value.to_string();
        let pair = (owned_key, owned_value);
        let found = self.position(&pair.0);
        let mut entries: Vec<(String, String)> = Vec::new();
        std::mem::swap(&mut self.entries, &mut entries);
        match found {
            Some(i) => {
                proof {
                    lemma_fold_update(entries@, i as int, pair);
                }
                entries.set(i, pair);
            },
            None => {
                proof {
                    lemma_fold_push(entries@, pair);
                    assert(distinct_keys(entries@.push(pair)));
                }
                entries.push(pair);
            },
        }
        std::mem::swap(&mut self.entries, &mut entries);
    }

    /// Whether every key and every value can be handed to the runtime whole.
    pub fn is_encodable(&self) -> (whole: bool)
        ensures
            whole == encodable_pairs(self@),
    {
        proof {
            use_type_invariant(self);
        }
        let mut i: usize = 0;
        while i < self.entries.len()
            invariant
                i <= self.entries@.len(),
                distinct_keys(self.entries@),
                forall|j: int|
                    0 <= j < i ==> encodable(#[trigger] self.entries@[j].0@) && encodable(
                        self.entries@[j].1@,
                    ),
            decreases self.entries@.len() - i,
        {
            let whole = is_encodable(self.entries[i].0.as_str()) && is_encodable(
                self.entries[i].1.as_str(),
            );
            if !whole {
                proof {
                    lemma_fold_value(self.entries@, i as int);
                }
                return false;
            }
            i = i + 1;
        }
        proof {
            assert forall|key: Seq<char>| #[trigger] self@.contains_key(key) implies encodable(key)
                && encodable(self@[key]) by {
                lemma_fold_contains(self.entries@, key);
                let j = choose|j: int|
                    0 <= j < self.entries@.len() && #[trigger] self.entries@[j].0@ == key;
                lemma_fold_value(self.entries@, j);
            }
        }
        true
    }

    /// The key at a position of the enumeration.
    pub fn key(&self, i: usize) -> (key: &str)
        requires
            i < self.spec_len(),
        ensures
            key@ == self.key_at(i as int),
    {
        self.entries[i].0.as_str()
    }

    /// The value at a position of the enumeration.
    pub fn value(&self, i: usize) -> (value: &str)
        requires
            i < self.spec_len(),
        ensures
            value@ == self.value_at(i as int),
    {
        self.entries[i].1.as_str()
    }
}

impl Clone for Properties {
    /// A copy with the same pairs.
    fn clone(&self) -> (copy: Self)
        ensures
            copy@ == self@,
            copy.spec_len() == self.spec_len(),
    {
        proof {
            use_type_invariant(self);
        }
        let mut entries: Vec<(String, String)> = Vec::new();
        let mut i: usize = 0;
        while i < self.entries.len()
            invariant
                i <= self.entries@.len(),
                entries@ == self.entries@.subrange(0, i as int),
            decreases self.entries@.len() - i,
        {
            let pair = (self.entries[i].0.clone(), self.entries[i].1.clone());
            entries.push(pair);
            assert(entries@ =~= self.entries@.subrange(0, i + 1));
            i = i + 1;
        }
        assert(entries@ =~= self.entries@);
        Properties { entries }
    }
}

} // verus!
