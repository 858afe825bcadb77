//! A small map from strings to values that keeps its entries in the order
//! in which their keys first came.

use vstd::prelude::*;
use vstd::string::StringSliceAdditionalSpecFns;

verus! {

/// Whether no key occurs twice among `entries`.
pub open spec fn keys_distinct<V>(entries: Seq<(Seq<char>, V)>) -> bool {
    forall|i: int, j: int|
        0 <= i < entries.len() && 0 <= j < entries.len() && i != j ==> (#[trigger] entries[i]).0
            != (#[trigger] entries[j]).0
}

/// Whether `entries` holds an entry under `key`.
pub open spec fn has_key<V>(entries: Seq<(Seq<char>, V)>, key: Seq<char>) -> bool {
    exists|i: int| 0 <= i < entries.len() && (#[trigger] entries[i]).0 == key
}

/// The position of an entry under `key`; meaningful where `has_key` holds.
pub open spec fn index_of_key<V>(entries: Seq<(Seq<char>, V)>, key: Seq<char>) -> int {
    choose|i: int| 0 <= i < entries.len() && (#[trigger] entries[i]).0 == key
}

/// The map that an association list stands for.
pub open spec fn map_of<V>(entries: Seq<(Seq<char>, V)>) -> Map<Seq<char>, V> {
    Map::new(|k: Seq<char>| has_key(entries, k), |k: Seq<char>| entries[index_of_key(entries, k)].1)
}

/// `entries` after `value` is put under `key`: in the place of the entry
/// that held the key, or else at the end.
pub open spec fn with_entry<V>(entries: Seq<(Seq<char>, V)>, key: Seq<char>, value: V) -> Seq<
    (Seq<char>, V),
> {
    if has_key(entries, key) {
        entries.update(index_of_key(entries, key), (key, value))
    } else {
        entries.push((key, value))
    }
}

/// `entries` without the entry under `key`, the others in their order.
pub open spec fn without_key<V>(entries: Seq<(Seq<char>, V)>, key: Seq<char>) -> Seq<
    (Seq<char>, V),
> {
    if has_key(entries, key) {
        entries.remove(index_of_key(entries, key))
    } else {
        entries
    }
}

/// With distinct keys, the position of a key is the one place that holds it.
pub proof fn lemma_index_of_key<V>(entries: Seq<(Seq<char>, V)>, i: int)
    requires
        keys_distinct(entries),
        0 <= i < entries.len(),
    ensures
        has_key(entries, entries[i].0),
        index_of_key(entries, entries[i].0) == i,
{
    let key = entries[i].0;
    assert(0 <= i < entries.len() && entries[i].0 == key);
    let j = index_of_key(entries, key);
    assert(0 <= j < entries.len() && entries[j].0 == key);
    if j != i {
        assert(entries[i].0 != entries[j].0);
    }
}

/// Putting a value under a key keeps the keys distinct and updates the map
/// at that key alone.
pub proof fn lemma_with_entry<V>(entries: Seq<(Seq<char>, V)>, key: Seq<char>, value: V)
    requires
        keys_distinct(entries),
    ensures
        keys_distinct(with_entry(entries, key, value)),
        map_of(with_entry(entries, key, value)) == map_of(entries).insert(key, value),
{
    let after = with_entry(entries, key, value);
    if has_key(entries, key) {
        let p = index_of_key(entries, key);
        assert(0 <= p < entries.len() && entries[p].0 == key);
        assert forall|i: int, j: int|
            0 <= i < after.len() && 0 <= j < after.len() && i != j implies (#[trigger] after[i]).0
            != (#[trigger] after[j]).0 by {
            assert(after[i].0 == entries[i].0);
            assert(after[j].0 == entries[j].0);
        }
        assert forall|k: Seq<char>| has_key(after, k) == has_key(entries, k) by {
            if has_key(entries, k) {
                let i = index_of_key(entries, k);
                assert(0 <= i < entries.len() && entries[i].0 == k);
                assert(after[i].0 == k);
            }
            if has_key(after, k) {
                let i = index_of_key(after, k);
                assert(0 <= i < after.len() && after[i].0 == k);
                assert(entries[i].0 == k);
            }
        }
        assert forall|k: Seq<char>| has_key(after, k) implies #[trigger] map_of(after)[k] == map_of(
            entries,
        ).insert(key, value)[k] by {
            let i = index_of_key(after, k);
            assert(0 <= i < after.len() && after[i].0 == k);
            lemma_index_of_key(after, i);
            if k == key {
                lemma_index_of_key(after, p);
            } else {
                assert(entries[i].0 == k);
                lemma_index_of_key(entries, i);
            }
        }
        assert(map_of(after).dom() =~= map_of(entries).insert(key, value).dom());
        assert(map_of(after) =~= map_of(entries).insert(key, value));
    } else {
        let n = entries.len() as int;
        assert forall|i: int, j: int|
            0 <= i < after.len() && 0 <= j < after.len() && i != j implies (#[trigger] after[i]).0
            != (#[trigger] after[j]).0 by {
            if i < n && j < n {
                assert(after[i] == entries[i]);
                assert(after[j] == entries[j]);
            } else if i < n {
                assert(after[i] == entries[i]);
            } else {
                assert(after[j] == entries[j]);
            }
        }
        assert forall|k: Seq<char>| has_key(after, k) == (k == key || has_key(entries, k)) by {
            if has_key(entries, k) {
                let i = index_of_key(entries, k);
                assert(0 <= i < entries.len() && entries[i].0 == k);
                assert(after[i].0 == k);
            }
            if k == key {
                assert(after[n].0 == k);
            }
            if has_key(after, k) {
                let i = index_of_key(after, k);
                assert(0 <= i < after.len() && after[i].0 == k);
                if i < n {
                    assert(entries[i].0 == k);
                }
            }
        }
        assert forall|k: Seq<char>| has_key(after, k) implies #[trigger] map_of(after)[k] == map_of(
            entries,
        ).insert(key, value)[k] by {
            let i = index_of_key(after, k);
            assert(0 <= i < after.len() && after[i].0 == k);
            if k == key {
                lemma_index_of_key(after, n);
            } else {
                assert(entries[i].0 == k);
                lemma_index_of_key(entries, i);
            }
        }
        assert(map_of(after).dom() =~= map_of(entries).insert(key, value).dom());
        assert(map_of(after) =~= map_of(entries).insert(key, value));
    }
}

/// Taking a key out keeps the keys distinct and removes that key alone
/// from the map.
pub proof fn lemma_without_key<V>(entries: Seq<(Seq<char>, V)>, key: Seq<char>)
    requires
        keys_distinct(entries),
    ensures
        keys_distinct(without_key(entries, key)),
        map_of(without_key(entries, key)) == map_of(entries).remove(key),
{
    let after = without_key(entries, key);
    if has_key(entries, key) {
        let p = index_of_key(entries, key);
        assert(0 <= p < entries.len() && entries[p].0 == key);
        lemma_index_of_key(entries, p);
        assert forall|i: int| 0 <= i < after.len() implies #[trigger] after[i] == entries[if i
            < p {
            i
        } else {
            i + 1
        }] by {}
        assert forall|i: int, j: int|
            0 <= i < after.len() && 0 <= j < after.len() && i != j implies (#[trigger] after[i]).0
            != (#[trigger] after[j]).0 by {
            let a = if i < p { i } else { i + 1 };
            let b = if j < p { j } else { j + 1 };
            assert(after[i] == entries[a]);
            assert(after[j] == entries[b]);
            assert(entries[a].0 != entries[b].0);
        }
        assert forall|k: Seq<char>| has_key(after, k) == (k != key && has_key(entries, k)) by {
            if k != key && has_key(entries, k) {
                let i = index_of_key(entries, k);
                assert(0 <= i < entries.len() && entries[i].0 == k);
                let a = if i < p { i } else { i - 1 };
                assert(after[a] == entries[i]);
                assert(after[a].0 == k);
            }
            if has_key(after, k) {
                let i = index_of_key(after, k);
                assert(0 <= i < after.len() && after[i].0 == k);
                let a = if i < p { i } else { i + 1 };
                assert(after[i] == entries[a]);
                assert(entries[a].0 == k);
                if k == key {
                    assert(entries[a].0 != entries[p].0);
                }
            }
        }
        assert forall|k: Seq<char>| has_key(after, k) implies #[trigger] map_of(after)[k] == map_of(
            entries,
        ).remove(key)[k] by {
            let i = index_of_key(after, k);
            assert(0 <= i < after.len() && after[i].0 == k);
            let a = if i < p { i } else { i + 1 };
            assert(after[i] == entries[a]);
            lemma_index_of_key(entries, a);
        }
        assert(map_of(after).dom() =~= map_of(entries).remove(key).dom());
        assert(map_of(after) =~= map_of(entries).remove(key));
    } else {
        assert(map_of(after).dom() =~= map_of(entries).remove(key).dom());
        assert(map_of(after) =~= map_of(entries).remove(key));
    }
}

/// A map keyed by strings. Entries keep the order in which their keys were
/// first inserted; no key occurs twice.
#[derive(Debug)]
pub struct StringMap<V> {
    entries: Vec<(String, V)>,
}

impl<V> StringMap<V> {
    /// The entries in order, each key by its characters.
    pub closed spec fn entries(&self) -> Seq<(Seq<char>, V)> {
        self.entries@.map_values(|e: (String, V)| (e.0@, e.1))
    }

    #[verifier::type_invariant]
    closed spec fn well_formed(&self) -> bool {
        keys_distinct(self.entries())
    }

    /// What every value of the type satisfies: no key occurs twice.
    pub open spec fn wf(&self) -> bool {
        keys_distinct(self.entries())
    }

    /// An empty map.
    pub fn new() -> (m: StringMap<V>)
        ensures
            m.entries() == Seq::<(Seq<char>, V)>::empty(),
            m@ == Map::<Seq<char>, V>::empty(),
            m.wf(),
    {
        let m = StringMap { entries: Vec::new() };
        proof {
            assert(m.entries() =~= Seq::<(Seq<char>, V)>::empty());
            assert(m@ =~= Map::<Seq<char>, V>::empty());
        }
        m
    }

    /// The number of entries.
    pub fn len(&self) -> (n: usize)
        ensures
            n == self.entries().len(),
    {
        self.entries.len()
    }

    /// Whether the map holds no entry.
    pub fn is_empty(&self) -> (b: bool)
        ensures
            b == (self.entries().len() == 0),
    {
        self.entries.len() == 0
    }

    /// The position of the entry under `key`, if there is one.
    fn position(&self, key: &str) -> (r: Option<usize>)
        ensures
            self.wf(),
            match r {
                Some(i) => i < self.entries().len() && self.entries()[i as int].0 == key@
                    && has_key(self.entries(), key@) && index_of_key(self.entries(), key@) == i,
                None => !has_key(self.entries(), key@),
            },
    {
        proof {
            use_type_invariant(self);
        }
        let mut i: usize = 0;
        while i < self.entries.len()
            invariant
                i <= self.entries.len(),
                self.wf(),
                forall|j: int| 0 <= j < i ==> (#[trigger] self.entries()[j]).0 != key@,
            decreases self.entries.len() - i,
        {
            if str_equal(self.entries[i].0.as_str(), key) {
                proof {
                    assert(self.entries()[i as int].0 == key@);
                    lemma_index_of_key(self.entries(), i as int);
                }
                return Some(i);
            }
            i += 1;
        }
        None
    }

    /// Whether an entry stands under `key`.
    pub fn contains_key(&self, key: &str) -> (b: bool)
        ensures
            b == self@.contains_key(key@),
    {
        self.position(key).is_some()
    }

    /// The value under `key`, if there is one.
    pub fn get(&self, key: &str) -> (r: Option<&V>)
        ensures
            r == (if self@.contains_key(key@) {
                Some(&self@[key@])
            } else {
                None
            }),
    {
        match self.position(key) {
            Some(i) => Some(&self.entries[i].1),
            None => None,
        }
    }

    /// Puts `value` under `key`, in the place of the value that stood there
    /// or else as the last entry.
    pub fn insert(&mut self, key: String, value: V)
        ensures
            final(self).entries() == with_entry(old(self).entries(), key@, value),
            final(self)@ == old(self)@.insert(key@, value),
            final(self).wf(),
    {
        proof {
            use_type_invariant(&*self);
            lemma_with_entry(self.entries(), key@, value);
        }
        let found = self.position(key.as_str());
        let mut entries: Vec<(String, V)> = Vec::new();
        core::mem::swap(&mut entries, &mut self.entries);
        match found {
            Some(i) => {
                entries.set(i, (key, value));
            },
            None => {
                entries.push((key, value));
            },
        }
        proof {
            assert(entries@.map_values(|e: (String, V)| (e.0@, e.1)) =~= with_entry(
                old(self).entries(),
                key@,
                value,
            ));
        }
        self.entries = entries;
    }

    /// Takes the entry under `key` out and returns its value, if there was
    /// one.
    pub fn remove(&mut self, key: &str) -> (r: Option<V>)
        ensures
            final(self).entries() == without_key(old(self).entries(), key@),
            final(self)@ == old(self)@.remove(key@),
            final(self).wf(),
            r == (if old(self)@.contains_key(key@) {
                Some(old(self)@[key@])
            } else {
                None
            }),
    {
        proof {
            use_type_invariant(&*self);
            lemma_without_key(self.entries(), key@);
        }
        match self.position(key) {
            Some(i) => {
                let mut entries: Vec<(String, V)> = Vec::new();
                core::mem::swap(&mut entries, &mut self.entries);
                let e = entries.remove(i);
                proof {
                    assert(entries@.map_values(|e: (String, V)| (e.0@, e.1)) =~= without_key(
                        old(self).entries(),
                        key@,
                    ));
                }
                self.entries = entries;
                Some(e.1)
            },
            None => None,
        }
    }

    /// The key of the entry at `index`.
    pub fn key_at(&self, index: usize) -> (k: &String)
        requires
            index < self.entries().len(),
        ensures
            k@ == self.entries()[index as int].0,
    {
        &self.entries[index].0
    }

    /// The value of the entry at `index`.
    pub fn value_at(&self, index: usize) -> (v: &V)
        requires
            index < self.entries().len(),
        ensures
            *v == self.entries()[index as int].1,
    {
        &self.entries[index].1
    }

    /// Drops every entry from position `len` on.
    pub fn truncate(&mut self, len: usize)
        ensures
            final(self).entries() == if len <= old(self).entries().len() {
                old(self).entries().subrange(0, len as int)
            } else {
                old(self).entries()
            },
            final(self).wf(),
    {
        proof {
            use_type_invariant(&*self);
        }
        let mut entries: Vec<(String, V)> = Vec::new();
        core::mem::swap(&mut entries, &mut self.entries);
        entries.truncate(len);
        proof {
            let after = entries@.map_values(|e: (String, V)| (e.0@, e.1));
            if len <= old(self).entries().len() {
                assert(after =~= old(self).entries().subrange(0, len as int));
            } else {
                assert(after =~= old(self).entries());
            }
        }
        self.entries = entries;
    }
}

impl<V: Clone> Clone for StringMap<V> {
    /// A copy with the same keys in the same order, each value cloned.
    fn clone(&self) -> (r: StringMap<V>)
        ensures
            r.entries().len() == self.entries().len(),
            forall|i: int|
                0 <= i < self.entries().len() ==> (#[trigger] r.entries()[i]).0
                    == self.entries()[i].0 && cloned::<V>(self.entries()[i].1, r.entries()[i].1),
            r.wf(),
    {
        proof {
            use_type_invariant(self);
        }
        let mut entries: Vec<(String, V)> = Vec::new();
        let mut i: usize = 0;
        while i < self.entries.len()
            invariant
                i <= self.entries@.len(),
                entries@.len() == i,
                forall|j: int|
                    0 <= j < i ==> (#[trigger] entries@[j]).0@ == self.entries@[j].0@ && cloned::<V>(
                        self.entries@[j].1,
                        entries@[j].1,
                    ),
            decreases self.entries@.len() - i,
        {
            let key = self.entries[i].0.clone();
            let value = self.entries[i].1.clone();
            entries.push((key, value));
            i += 1;
        }
        proof {
            let copied = entries@.map_values(|e: (String, V)| (e.0@, e.1));
            assert forall|a: int, b: int|
                0 <= a < copied.len() && 0 <= b < copied.len() && a != b implies (
            #[trigger] copied[a]).0 != (#[trigger] copied[b]).0 by {
                assert(copied[a].0 == self.entries()[a].0);
                assert(copied[b].0 == self.entries()[b].0);
            }
        }
        StringMap { entries }
    }
}

impl StringMap<bool> {
    /// Whether every entry of `self` stands in `other` with the same
    /// value.
    fn included_in(&self, other: &StringMap<bool>) -> (r: bool)
        ensures
            r == (forall|k: Seq<char>| #[trigger]
                self@.contains_key(k) ==> other@.contains_key(k) && other@[k] == self@[k]),
    {
        proof {
            use_type_invariant(self);
        }
        let mut i: usize = 0;
        while i < self.entries.len()
            invariant
                i <= self.entries@.len(),
                self.wf(),
                forall|j: int|
                    0 <= j < i ==> other@.contains_key((#[trigger] self.entries()[j]).0) && other@[self.entries()[j].0]
                        == self.entries()[j].1,
            decreases self.entries@.len() - i,
        {
            let found = match other.get(self.entries[i].0.as_str()) {
                Some(value) => *value == self.entries[i].1,
                None => false,
            };
            if !found {
                proof {
                    let k = self.entries()[i as int].0;
                    lemma_index_of_key(self.entries(), i as int);
                    assert(self@.contains_key(k));
                    assert(self@[k] == self.entries()[i as int].1);
                }
                return false;
            }
            i += 1;
        }
        proof {
            assert forall|k: Seq<char>| #[trigger] self@.contains_key(k) implies other@.contains_key(
                k,
            ) && other@[k] == self@[k] by {
                let j = index_of_key(self.entries(), k);
                assert(0 <= j < self.entries().len() && self.entries()[j].0 == k);
            }
        }
        true
    }

    /// Whether the two maps hold the same entries, in whatever order.
    pub fn equals(&self, other: &StringMap<bool>) -> (r: bool)
        ensures
            r == (self@ == other@),
    {
        if !self.included_in(other) {
            return false;
        }
        let r = other.included_in(self);
        proof {
            if r {
                assert(self@ =~= other@);
            }
        }
        r
    }
}

impl<V> View for StringMap<V> {
    type V = Map<Seq<char>, V>;

    open spec fn view(&self) -> Map<Seq<char>, V> {
        map_of(self.entries())
    }
}

/// Whether two strings hold the same characters.
pub fn str_equal(a: &str, b: &str) -> (r: bool)
    ensures
        r == (a@ == b@),
{
    let x = a.as_bytes();
    let y = b.as_bytes();
    proof {
        // Two strings with the same bytes are the same string.
        vstd::utf8::encode_utf8_decode_utf8(a@);
        vstd::utf8::encode_utf8_decode_utf8(b@);
    }
    if x.len() != y.len() {
        return false;
    }
    let mut i: usize = 0;
    while i < x.len()
        invariant
            i <= x@.len(),
            x@.len() == y@.len(),
            x@ == a.spec_bytes(),
            y@ == b.spec_bytes(),
            forall|k: int| 0 <= k < i ==> x@[k] == y@[k],
        decreases x@.len() - i,
    {
        if x[i] != y[i] {
            return false;
        }
        i += 1;
    }
    proof {
        assert(x@ =~= y@);
    }
    true
}

} // verus!
