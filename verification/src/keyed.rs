//! A small map from text keys to values, kept as a list without repeated
//! keys.
//!
//! A hash map keyed by `String` would do the same work, but nothing is known
//! here of how a `String` hashes, and so nothing could be proved of what
//! such a map holds after an insert. Of a list with distinct keys
//! everything is proved: what a key holds after each operation, and that no
//! other key is touched.

use vstd::prelude::*;

verus! {

/// One key with its value.
pub struct Entry<V> {
    pub key: String,
    pub value: V,
}

/// A map from text keys to values.
pub struct KeyedList<V> {
    entries: Vec<Entry<V>>,
}

/// The value that `entries` holds for `key`, if any.
pub open spec fn held<V>(entries: Seq<Entry<V>>, key: Seq<char>) -> Option<V> {
    if exists|i: int| 0 <= i < entries.len() && entries[i].key@ == key {
        let i = choose|i: int| 0 <= i < entries.len() && entries[i].key@ == key;
        Some(entries[i].value)
    } else {
        None
    }
}

/// No key stands twice.
pub open spec fn distinct_keys<V>(entries: Seq<Entry<V>>) -> bool {
    forall|i: int, j: int|
        0 <= i < j < entries.len() ==> (#[trigger] entries[i]).key@ != (#[trigger] entries[j]).key@
}

proof fn lemma_held_at<V>(entries: Seq<Entry<V>>, i: int)
    requires
        distinct_keys(entries),
        0 <= i < entries.len(),
    ensures
        held(entries, entries[i].key@) == Some(entries[i].value),
{
    let key = entries[i].key@;
    let j = choose|j: int| 0 <= j < entries.len() && entries[j].key@ == key;
    if j < i {
        assert(entries[j].key@ != entries[i].key@);
    }
    if i < j {
        assert(entries[i].key@ != entries[j].key@);
    }
}

proof fn lemma_held_absent<V>(entries: Seq<Entry<V>>, key: Seq<char>)
    requires
        forall|i: int| 0 <= i < entries.len() ==> (#[trigger] entries[i]).key@ != key,
    ensures
        held(entries, key) is None,
{
}

/// What an entry of `from` at `source(i)` says of the entry of `to` at `i`:
/// used where `to` holds the entries of `from` at other places.
proof fn lemma_held_same<V>(from: Seq<Entry<V>>, to: Seq<Entry<V>>, key: Seq<char>)
    requires
        distinct_keys(from),
        distinct_keys(to),
        forall|i: int|
            0 <= i < from.len() && (#[trigger] from[i]).key@ == key ==> exists|j: int|
                0 <= j < to.len() && to[j] == from[i],
        forall|j: int|
            0 <= j < to.len() && (#[trigger] to[j]).key@ == key ==> exists|i: int|
                0 <= i < from.len() && from[i] == to[j],
    ensures
        held(to, key) == held(from, key),
{
    if exists|i: int| 0 <= i < from.len() && from[i].key@ == key {
        let i = choose|i: int| 0 <= i < from.len() && from[i].key@ == key;
        assert(from[i].key@ == key);
        let j = choose|j: int| 0 <= j < to.len() && to[j] == from[i];
        lemma_held_at(from, i);
        lemma_held_at(to, j);
    } else {
        assert forall|j: int| 0 <= j < to.len() implies (#[trigger] to[j]).key@ != key by {
            if to[j].key@ == key {
                let i = choose|i: int| 0 <= i < from.len() && from[i] == to[j];
                assert(from[i].key@ == key);
            }
        }
    }
}

proof fn lemma_update<V>(entries: Seq<Entry<V>>, i: int, entry: Entry<V>)
    requires
        distinct_keys(entries),
        0 <= i < entries.len(),
        entry.key@ == entries[i].key@,
    ensures
        distinct_keys(entries.update(i, entry)),
        held(entries.update(i, entry), entry.key@) == Some(entry.value),
        forall|key: Seq<char>|
            key != entry.key@ ==> held(entries.update(i, entry), key) == held(entries, key),
{
    let updated = entries.update(i, entry);
    assert(distinct_keys(updated)) by {
        assert forall|a: int, b: int| 0 <= a < b < updated.len() implies (#[trigger] updated[a]).key@
            != (#[trigger] updated[b]).key@ by {
            assert(entries[a].key@ != entries[b].key@);
        }
    }
    lemma_held_at(updated, i);
    assert forall|key: Seq<char>| key != entry.key@ implies held(updated, key) == held(
        entries,
        key,
    ) by {
        assert forall|a: int| 0 <= a < entries.len() && (#[trigger] entries[a]).key@
            == key implies exists|b: int| 0 <= b < updated.len() && updated[b] == entries[a] by {
            assert(updated[a] == entries[a]);
        }
        assert forall|b: int| 0 <= b < updated.len() && (#[trigger] updated[b]).key@
            == key implies exists|a: int| 0 <= a < entries.len() && entries[a] == updated[b] by {
            assert(entries[b] == updated[b]);
        }
        lemma_held_same(entries, updated, key);
    }
}

proof fn lemma_push<V>(entries: Seq<Entry<V>>, entry: Entry<V>)
    requires
        distinct_keys(entries),
        forall|i: int| 0 <= i < entries.len() ==> (#[trigger] entries[i]).key@ != entry.key@,
    ensures
        distinct_keys(entries.push(entry)),
        held(entries.push(entry), entry.key@) == Some(entry.value),
        forall|key: Seq<char>|
            key != entry.key@ ==> held(entries.push(entry), key) == held(entries, key),
{
    let pushed = entries.push(entry);
    assert(distinct_keys(pushed)) by {
        assert forall|a: int, b: int| 0 <= a < b < pushed.len() implies (#[trigger] pushed[a]).key@
            != (#[trigger] pushed[b]).key@ by {
            if b < entries.len() {
                assert(entries[a].key@ != entries[b].key@);
            } else {
                assert(entries[a].key@ != entry.key@);
            }
        }
    }
    lemma_held_at(pushed, entries.len() as int);
    assert forall|key: Seq<char>| key != entry.key@ implies held(pushed, key) == held(
        entries,
        key,
    ) by {
        assert forall|a: int| 0 <= a < entries.len() && (#[trigger] entries[a]).key@
            == key implies exists|b: int| 0 <= b < pushed.len() && pushed[b] == entries[a] by {
            assert(pushed[a] == entries[a]);
        }
        assert forall|b: int| 0 <= b < pushed.len() && (#[trigger] pushed[b]).key@
            == key implies exists|a: int| 0 <= a < entries.len() && entries[a] == pushed[b] by {
            assert(entries[b] == pushed[b]);
        }
        lemma_held_same(entries, pushed, key);
    }
}

proof fn lemma_remove<V>(entries: Seq<Entry<V>>, i: int)
    requires
        distinct_keys(entries),
        0 <= i < entries.len(),
    ensures
        distinct_keys(entries.remove(i)),
        held(entries.remove(i), entries[i].key@) is None,
        forall|key: Seq<char>|
            key != entries[i].key@ ==> held(entries.remove(i), key) == held(entries, key),
{
    let removed = entries.remove(i);
    let gone = entries[i].key@;
    assert forall|a: int| 0 <= a < removed.len() implies #[trigger] removed[a] == entries[if a
        < i {
        a
    } else {
        a + 1
    }] by {}
    assert(distinct_keys(removed)) by {
        assert forall|a: int, b: int| 0 <= a < b < removed.len() implies (#[trigger] removed[a]).key@
            != (#[trigger] removed[b]).key@ by {
            let ea = if a < i {
                a
            } else {
                a + 1
            };
            let eb = if b < i {
                b
            } else {
                b + 1
            };
            assert(entries[ea].key@ != entries[eb].key@);
        }
    }
    assert forall|a: int| 0 <= a < removed.len() implies (#[trigger] removed[a]).key@ != gone by {
        let ea = if a < i {
            a
        } else {
            a + 1
        };
        if ea < i {
            assert(entries[ea].key@ != entries[i].key@);
        } else {
            assert(entries[i].key@ != entries[ea].key@);
        }
    }
    assert forall|key: Seq<char>| key != gone implies held(removed, key) == held(entries, key) by {
        assert forall|a: int| 0 <= a < entries.len() && (#[trigger] entries[a]).key@
            == key implies exists|b: int| 0 <= b < removed.len() && removed[b] == entries[a] by {
            let b = if a < i {
                a
            } else {
                a - 1
            };
            assert(removed[b] == entries[a]);
        }
        assert forall|b: int| 0 <= b < removed.len() && (#[trigger] removed[b]).key@
            == key implies exists|a: int| 0 <= a < entries.len() && entries[a] == removed[b] by {
            let a = if b < i {
                b
            } else {
                b + 1
            };
            assert(entries[a] == removed[b]);
        }
        lemma_held_same(entries, removed, key);
    }
}

impl<V> KeyedList<V> {
    #[verifier::type_invariant]
    spec fn well_formed(&self) -> bool {
        distinct_keys(self.entries@)
    }

    /// The value held for `key`, if any.
    pub closed spec fn lookup(&self, key: Seq<char>) -> Option<V> {
        held(self.entries@, key)
    }

    /// A map that holds nothing.
    pub fn new() -> (list: KeyedList<V>)
        ensures
            forall|key: Seq<char>| list.lookup(key) is None,
    {
        KeyedList { entries: Vec::new() }
    }

    /// Where `key` stands, if it is held.
    fn position(&self, key: &str) -> (found: Option<usize>)
        ensures
            match found {
                Some(i) => i < self.entries.len() && self.entries[i as int].key@ == key@,
                None => forall|i: int|
                    0 <= i < self.entries.len() ==> (#[trigger] self.entries[i]).key@ != key@,
            },
    {
        let wanted = key.to_owned();
        let mut i: usize = 0;
        while i < self.entries.len()
            invariant
                i <= self.entries.len(),
                wanted@ == key@,
                forall|j: int| 0 <= j < i ==> (#[trigger] self.entries[j]).key@ != key@,
            decreases self.entries.len() - i,
        {
            if self.entries[i].key == wanted {
                return Some(i);
            }
            i = i + 1;
        }
        None
    }

    /// The value held for `key`, if any.
    pub fn get(&self, key: &str) -> (found: Option<&V>)
        ensures
            match found {
                Some(value) => self.lookup(key@) == Some(*value),
                None => self.lookup(key@) is None,
            },
    {
        proof {
            use_type_invariant(self);
        }
        match self.position(key) {
            Some(i) => {
                proof {
                    lemma_held_at(self.entries@, i as int);
                }
                Some(&self.entries[i].value)
            },
            None => None,
        }
    }

    /// Holds `value` for `key` from now on, in place of what was held for
    /// it. No other key is touched.
    pub fn put(&mut self, key: &str, value: V)
        ensures
            final(self).lookup(key@) == Some(value),
            forall|other: Seq<char>|
                other != key@ ==> final(self).lookup(other) == old(self).lookup(other),
    {
        proof {
            use_type_invariant(&*self);
        }
        let found = self.position(key);
        let mut entries: Vec<Entry<V>> = Vec::new();
        std::mem::swap(&mut entries, &mut self.entries);
        let entry = Entry { key: key.to_owned(), value };
        match found {
            Some(i) => {
                proof {
                    lemma_update(entries@, i as int, entry);
                }
                entries.set(i, entry);
            },
            None => {
                proof {
                    lemma_push(entries@, entry);
                }
                entries.push(entry);
            },
        }
        self.entries = entries;
    }

    /// Holds nothing for `key` from now on. No other key is touched.
    pub fn remove(&mut self, key: &str)
        ensures
            final(self).lookup(key@) is None,
            forall|other: Seq<char>|
                other != key@ ==> final(self).lookup(other) == old(self).lookup(other),
    {
        proof {
            use_type_invariant(&*self);
        }
        match self.position(key) {
            Some(i) => {
                let mut entries: Vec<Entry<V>> = Vec::new();
                std::mem::swap(&mut entries, &mut self.entries);
                proof {
                    lemma_remove(entries@, i as int);
                }
                let _ = entries.remove(i);
                self.entries = entries;
            },
            None => {},
        }
    }
}

} // verus!
