//! A small map keyed by strings, seen as a mathematical map from texts to
//! values.  Entries are kept in insertion order in a vector, each key once.

use vstd::prelude::*;
use crate::text::{owned, str_eq};

verus! {

/// A map from strings to values.
#[derive(Debug, Clone)]
pub struct StrMap<V> {
    entries: Vec<(String, V)>,
}

/// No key occurs twice among `entries`.
pub open spec fn keys_unique<V>(entries: Seq<(String, V)>) -> bool {
    forall|i: int, j: int|
        0 <= i < entries.len() && 0 <= j < entries.len() && i != j ==> (#[trigger] entries[i]).0@
            != (#[trigger] entries[j]).0@
}

/// The map that `entries` describe.
pub open spec fn entries_map<V>(entries: Seq<(String, V)>) -> Map<Seq<char>, V>
    decreases entries.len(),
{
    if entries.len() == 0 {
        Map::empty()
    } else {
        entries_map(entries.drop_last()).insert(entries.last().0@, entries.last().1)
    }
}

proof fn lemma_entries_map<V>(entries: Seq<(String, V)>)
    requires
        keys_unique(entries),
    ensures
        forall|k: Seq<char>|
            #![trigger entries_map(entries).dom().contains(k)]
            entries_map(entries).dom().contains(k) <==> exists|i: int|
                0 <= i < entries.len() && (#[trigger] entries[i]).0@ == k,
        forall|i: int|
            0 <= i < entries.len() ==> entries_map(entries)[(#[trigger] entries[i]).0@]
                == entries[i].1,
    decreases entries.len(),
{
    if entries.len() > 0 {
        let init = entries.drop_last();
        assert(keys_unique(init)) by {
            assert forall|i: int, j: int|
                0 <= i < init.len() && 0 <= j < init.len() && i != j implies (
            #[trigger] init[i]).0@ != (#[trigger] init[j]).0@ by {
                assert(init[i] == entries[i] && init[j] == entries[j]);
            }
        }
        lemma_entries_map(init);
        let n = entries.len() - 1;
        assert forall|k: Seq<char>|
            #![trigger entries_map(entries).dom().contains(k)]
            entries_map(entries).dom().contains(k) <==> exists|i: int|
                0 <= i < entries.len() && (#[trigger] entries[i]).0@ == k by {
            if entries_map(entries).dom().contains(k) {
                if k == entries[n].0@ {
                    assert(entries[n].0@ == k);
                } else {
                    assert(entries_map(init).dom().contains(k));
                    let i = choose|i: int| 0 <= i < init.len() && (#[trigger] init[i]).0@ == k;
                    assert(entries[i] == init[i]);
                }
            }
            if exists|i: int| 0 <= i < entries.len() && (#[trigger] entries[i]).0@ == k {
                let i = choose|i: int| 0 <= i < entries.len() && (#[trigger] entries[i]).0@ == k;
                if i < n {
                    assert(init[i] == entries[i]);
                }
            }
        }
        assert forall|i: int| 0 <= i < entries.len() implies entries_map(entries)[(
        #[trigger] entries[i]).0@] == entries[i].1 by {
            if i < n {
                assert(init[i] == entries[i]);
                assert(entries[i].0@ != entries[n].0@);
            }
        }
    }
}

impl<V> StrMap<V> {
    /// The map's invariant: each key once.
    pub closed spec fn wf(&self) -> bool {
        keys_unique(self.entries@)
    }

    /// The entries, in insertion order.
    pub closed spec fn entries(&self) -> Seq<(String, V)> {
        self.entries@
    }

    /// The mathematical map.
    pub closed spec fn map(&self) -> Map<Seq<char>, V> {
        entries_map(self.entries@)
    }

    /// How the map relates to the entries: the keys are exactly the
    /// entries' keys, each once, with the entries' values.
    pub proof fn lemma_map_entries(&self)
        requires
            self.wf(),
        ensures
            keys_unique(self.entries()),
            forall|k: Seq<char>|
                #![trigger self.map().dom().contains(k)]
                self.map().dom().contains(k) <==> exists|i: int|
                    0 <= i < self.entries().len() && (#[trigger] self.entries()[i]).0@ == k,
            forall|i: int|
                0 <= i < self.entries().len() ==> self.map()[(
                #[trigger] self.entries()[i]).0@] == self.entries()[i].1,
    {
        lemma_entries_map(self.entries@);
        assert(self.map() == entries_map(self.entries@));
        assert(self.entries() == self.entries@);
        assert forall|k: Seq<char>|
            #![trigger self.map().dom().contains(k)]
            self.map().dom().contains(k) <==> exists|i: int|
                0 <= i < self.entries().len() && (#[trigger] self.entries()[i]).0@ == k by {
            assert(self.map().dom().contains(k) == entries_map(self.entries@).dom().contains(k));
        }
    }

    /// An empty map.
    pub fn new() -> (m: Self)
        ensures
            m.wf(),
            m.map() == Map::<Seq<char>, V>::empty(),
            m.entries().len() == 0,
    {
        StrMap { entries: Vec::new() }
    }

    /// The number of entries.
    pub fn len(&self) -> (n: usize)
        ensures
            n == self.entries().len(),
    {
        self.entries.len()
    }

    /// The position of `key` among the entries.
    fn position(&self, key: &str) -> (r: Option<usize>)
        requires
            self.wf(),
        ensures
            match r {
                Some(i) => i < self.entries@.len() && self.entries@[i as int].0@ == key@,
                None => forall|i: int|
                    0 <= i < self.entries@.len() ==> (#[trigger] self.entries@[i]).0@ != key@,
            },
    {
        let mut i: usize = 0;
        while i < self.entries.len()
            invariant
                i <= self.entries.len(),
                forall|k: int| 0 <= k < i ==> (#[trigger] self.entries@[k]).0@ != key@,
            decreases self.entries.len() - i,
        {
            if str_eq(self.entries[i].0.as_str(), key) {
                return Some(i);
            }
            i = i + 1;
        }
        None
    }

    /// Whether `key` has an entry.
    pub fn contains_key(&self, key: &str) -> (b: bool)
        requires
            self.wf(),
        ensures
            b == self.map().dom().contains(key@),
    {
        proof {
            lemma_entries_map(self.entries@);
        }
        match self.position(key) {
            Some(i) => {
                assert(self.entries@[i as int].0@ == key@);
                assert(self.map().dom().contains(key@));
                true
            },
            None => {
                assert(!self.map().dom().contains(key@));
                false
            },
        }
    }

    /// The value of `key`, if it has one.
    pub fn get(&self, key: &str) -> (r: Option<&V>)
        requires
            self.wf(),
        ensures
            match r {
                Some(v) => self.map().dom().contains(key@) && *v == self.map()[key@],
                None => !self.map().dom().contains(key@),
            },
    {
        proof {
            lemma_entries_map(self.entries@);
        }
        match self.position(key) {
            Some(i) => {
                assert(self.entries@[i as int].0@ == key@);
                assert(self.map().dom().contains(key@));
                assert(self.map()[key@] == self.entries@[i as int].1);
                Some(&self.entries[i].1)
            },
            None => {
                assert(!self.map().dom().contains(key@));
                None
            },
        }
    }

    /// The key and value of the `i`-th entry.
    pub fn entry(&self, i: usize) -> (r: (&String, &V))
        requires
            i < self.entries().len(),
        ensures
            *r.0 == self.entries()[i as int].0,
            *r.1 == self.entries()[i as int].1,
    {
        (&self.entries[i].0, &self.entries[i].1)
    }

    /// Sets the value of `key` (replacing any previous one).
    pub fn insert(&mut self, key: &str, value: V)
        requires
            old(self).wf(),
        ensures
            final(self).wf(),
            final(self).map() == old(self).map().insert(key@, value),
    {
        proof {
            lemma_entries_map(self.entries@);
        }
        match self.position(key) {
            Some(i) => {
                let ghost before = self.entries@;
                let _ = self.entries.remove(i);
                self.entries.push((owned(key), value));
                proof {
                    let e = self.entries@;
                    assert(keys_unique(e)) by {
                        assert forall|a: int, b: int|
                            0 <= a < e.len() && 0 <= b < e.len() && a != b implies (
                        #[trigger] e[a]).0@ != (#[trigger] e[b]).0@ by {
                            let n = e.len() - 1;
                            let ia = if a < i { a } else { a + 1 };
                            let ib = if b < i { b } else { b + 1 };
                            if a < n {
                                assert(e[a] == before[ia]);
                            }
                            if b < n {
                                assert(e[b] == before[ib]);
                            }
                        }
                    }
                    lemma_entries_map(e);
                    assert(self.map() =~= old(self).map().insert(key@, value)) by {
                        assert forall|k: Seq<char>|
                            #![auto]
                            self.map().dom().contains(k) <==> old(self).map().insert(
                                key@,
                                value,
                            ).dom().contains(k) by {
                            if k != key@ {
                                if old(self).map().dom().contains(k) {
                                    let j = choose|j: int|
                                        0 <= j < before.len() && (#[trigger] before[j]).0@ == k;
                                    assert(j != i);
                                    let jj = if j < i { j } else { j - 1 };
                                    assert(e[jj] == before[j]);
                                }
                                if self.map().dom().contains(k) {
                                    let j = choose|j: int|
                                        0 <= j < e.len() && (#[trigger] e[j]).0@ == k;
                                    let jj = if j < i { j } else { j + 1 };
                                    assert(e[j] == before[jj]);
                                }
                            } else {
                                assert(e[e.len() - 1].0@ == key@);
                            }
                        }
                        assert forall|k: Seq<char>|
                            #![auto]
                            self.map().dom().contains(k) implies self.map()[k] == old(
                                self,
                            ).map().insert(key@, value)[k] by {
                            if k != key@ {
                                let j = choose|j: int|
                                    0 <= j < e.len() && (#[trigger] e[j]).0@ == k;
                                let jj = if j < i { j } else { j + 1 };
                                assert(e[j] == before[jj]);
                            } else {
                                assert(e[e.len() - 1].0@ == key@);
                            }
                        }
                    }
                }
            },
            None => {
                let ghost before = self.entries@;
                self.entries.push((owned(key), value));
                proof {
                    let e = self.entries@;
                    assert(keys_unique(e)) by {
                        assert forall|a: int, b: int|
                            0 <= a < e.len() && 0 <= b < e.len() && a != b implies (
                        #[trigger] e[a]).0@ != (#[trigger] e[b]).0@ by {
                            assert(e[before.len() as int].0@ == key@);
                            if a < before.len() {
                                assert(e[a] == before[a]);
                            }
                            if b < before.len() {
                                assert(e[b] == before[b]);
                            }
                        }
                    }
                    assert(e.drop_last() =~= before);
                    assert(self.map() =~= old(self).map().insert(key@, value));
                }
            },
        }
    }

    /// Removes the entry of `key` and returns its value, if there is one.
    pub fn remove(&mut self, key: &str) -> (r: Option<V>)
        requires
            old(self).wf(),
        ensures
            final(self).wf(),
            final(self).map() == old(self).map().remove(key@),
            match r {
                Some(v) => {
                    &&& old(self).map().dom().contains(key@)
                    &&& v == old(self).map()[key@]
                    &&& final(self).entries().len() == old(self).entries().len() - 1
                },
                None => {
                    &&& !old(self).map().dom().contains(key@)
                    &&& final(self).entries().len() == old(self).entries().len()
                },
            },
    {
        proof {
            lemma_entries_map(self.entries@);
        }
        match self.position(key) {
            Some(i) => {
                let ghost before = self.entries@;
                let (_, v) = self.entries.remove(i);
                proof {
                    let e = self.entries@;
                    assert(keys_unique(e)) by {
                        assert forall|a: int, b: int|
                            0 <= a < e.len() && 0 <= b < e.len() && a != b implies (
                        #[trigger] e[a]).0@ != (#[trigger] e[b]).0@ by {
                            let ia = if a < i { a } else { a + 1 };
                            let ib = if b < i { b } else { b + 1 };
                            assert(e[a] == before[ia]);
                            assert(e[b] == before[ib]);
                        }
                    }
                    lemma_entries_map(e);
                    assert(self.map() =~= old(self).map().remove(key@)) by {
                        assert forall|k: Seq<char>|
                            #![auto]
                            self.map().dom().contains(k) <==> old(self).map().remove(
                                key@,
                            ).dom().contains(k) by {
                            if k != key@ && old(self).map().dom().contains(k) {
                                let j = choose|j: int|
                                    0 <= j < before.len() && (#[trigger] before[j]).0@ == k;
                                assert(j != i);
                                let jj = if j < i { j } else { j - 1 };
                                assert(e[jj] == before[j]);
                            }
                            if self.map().dom().contains(k) {
                                let j = choose|j: int|
                                    0 <= j < e.len() && (#[trigger] e[j]).0@ == k;
                                let jj = if j < i { j } else { j + 1 };
                                assert(e[j] == before[jj]);
                            }
                        }
                        assert forall|k: Seq<char>|
                            #![auto]
                            self.map().dom().contains(k) implies self.map()[k] == old(
                                self,
                            ).map().remove(key@)[k] by {
                            let j = choose|j: int| 0 <= j < e.len() && (#[trigger] e[j]).0@ == k;
                            let jj = if j < i { j } else { j + 1 };
                            assert(e[j] == before[jj]);
                        }
                    }
                }
                Some(v)
            },
            None => {
                proof {
                    assert(!old(self).map().dom().contains(key@));
                    assert(self.map() =~= old(self).map().remove(key@));
                }
                None
            },
        }
    }
}

impl StrMap<String> {
    /// Sets every entry of `other` here, replacing values of keys already
    /// present (`HashMap::extend`).
    pub fn extend_from(&mut self, other: &StrMap<String>)
        requires
            old(self).wf(),
            other.wf(),
        ensures
            final(self).wf(),
            final(self).map() == old(self).map().union_prefer_right(other.map()),
    {
        let n = other.entries.len();
        let mut i: usize = 0;
        while i < n
            invariant
                self.wf(),
                n == other.entries@.len(),
                i <= n,
                self.map() == old(self).map().union_prefer_right(
                    entries_map(other.entries@.take(i as int)),
                ),
            decreases n - i,
        {
            let ghost before = self.map();
            let k = other.entries[i].0.clone();
            let v = other.entries[i].1.clone();
            self.insert(k.as_str(), v);
            proof {
                let t = other.entries@.take(i + 1);
                assert(t.drop_last() =~= other.entries@.take(i as int));
                assert(t.last() == other.entries@[i as int]);
                assert(self.map() =~= old(self).map().union_prefer_right(entries_map(t)));
            }
            i = i + 1;
        }
        assert(other.entries@.take(n as int) =~= other.entries@);
    }
}

} // verus!
