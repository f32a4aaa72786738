//! A small keyed table: rows found by a string key, no key twice.

use crate::text::text_eq;
use vstd::prelude::*;

verus! {

/// One row of a table: a key and what is stored under it.
pub struct Entry<V> {
    pub key: String,
    pub value: V,
}

/// Rows keyed by strings. It stands for a relation with a primary key.
pub struct Table<V: Copy> {
    pub entries: Vec<Entry<V>>,
}

impl<V: Copy> Table<V> {
    /// No key occurs twice.
    pub open spec fn wf(&self) -> bool {
        forall|i: int, j: int|
            0 <= i < j < self.entries.len() ==> self.entries[i].key@ != self.entries[j].key@
    }

    /// Whether row `i` exists and has key `k`.
    pub open spec fn at(&self, i: int, k: Seq<char>) -> bool {
        0 <= i < self.entries.len() && self.entries[i].key@ == k
    }

    /// The table as a map from keys to values.
    pub open spec fn view(&self) -> Map<Seq<char>, V> {
        Map::new(
            |k: Seq<char>| exists|i: int| self.at(i, k),
            |k: Seq<char>| self.entries[choose|i: int| self.at(i, k)].value,
        )
    }

    /// In a well-formed table the row with a given key holds the map's value.
    pub proof fn lemma_row(&self, i: int)
        requires
            self.wf(),
            0 <= i < self.entries.len(),
        ensures
            self@.contains_key(self.entries[i].key@),
            self@[self.entries[i].key@] == self.entries[i].value,
    {
        let k = self.entries[i].key@;
        assert(self.at(i, k));
        let j = choose|j: int| self.at(j, k);
        assert(i == j);
    }

    /// An empty table.
    pub fn new() -> (t: Self)
        ensures
            t.wf(),
            t@ == Map::<Seq<char>, V>::empty(),
    {
        let t = Table { entries: Vec::new() };
        assert(t@ =~= Map::<Seq<char>, V>::empty());
        t
    }

    /// The place of the row with the given key.
    pub fn find(&self, key: &str) -> (r: Option<usize>)
        ensures
            match r {
                Some(i) => self.at(i as int, key@),
                None => !self@.contains_key(key@),
            },
    {
        let mut i: usize = 0;
        while i < self.entries.len()
            invariant
                i <= self.entries.len(),
                forall|j: int| 0 <= j < i ==> !self.at(j, key@),
            decreases self.entries.len() - i,
        {
            if text_eq(self.entries[i].key.as_str(), key) {
                return Some(i);
            }
            i = i + 1;
        }
        None
    }

    /// The value stored under a key.
    pub fn get(&self, key: &str) -> (r: Option<V>)
        requires
            self.wf(),
        ensures
            r == (if self@.contains_key(key@) {
                Some(self@[key@])
            } else {
                None
            }),
    {
        match self.find(key) {
            Some(i) => {
                proof {
                    self.lemma_row(i as int);
                }
                Some(self.entries[i].value)
            },
            None => None,
        }
    }

    /// Stores a value under a key, in place of what was there.
    pub fn put(&mut self, key: &str, value: V)
        requires
            old(self).wf(),
        ensures
            final(self).wf(),
            final(self)@ == old(self)@.insert(key@, value),
    {
        let ghost before = *self;
        match self.find(key) {
            Some(i) => {
                let fresh = Entry { key: key.to_owned(), value };
                self.entries[i] = fresh;
                proof {
                    assert(forall|j: int|
                        0 <= j < self.entries.len() ==> self.entries[j].key@
                            == before.entries[j].key@);
                    assert forall|k: Seq<char>|
                        self@.contains_key(k) == before@.insert(key@, value).contains_key(
                            k,
                        ) by {
                        if self@.contains_key(k) {
                            let j = choose|j: int| self.at(j, k);
                            assert(before.at(j, k));
                        }
                        if before@.contains_key(k) {
                            let j = choose|j: int| before.at(j, k);
                            assert(self.at(j, k));
                        }
                        if k == key@ {
                            assert(self.at(i as int, k));
                        }
                    }
                    assert forall|k: Seq<char>| self@.contains_key(k) implies self@[k]
                        == before@.insert(key@, value)[k] by {
                        let j = choose|j: int| self.at(j, k);
                        self.lemma_row(j);
                        if k != key@ {
                            assert(before.at(j, k));
                            before.lemma_row(j);
                        }
                    }
                    assert(self@ =~= before@.insert(key@, value));
                }
            },
            None => {
                self.entries.push(Entry { key: key.to_owned(), value });
                proof {
                    let n = before.entries.len() as int;
                    assert(forall|j: int|
                        0 <= j < n ==> self.entries[j] == before.entries[j]);
                    assert forall|a: int, b: int| 0 <= a < b < self.entries.len() implies self.entries[a].key@
                        != self.entries[b].key@ by {
                        if b == n {
                            assert(!before.at(a, key@));
                        }
                    }
                    assert forall|k: Seq<char>|
                        self@.contains_key(k) == before@.insert(key@, value).contains_key(
                            k,
                        ) by {
                        if self@.contains_key(k) {
                            let j = choose|j: int| self.at(j, k);
                            if j < n {
                                assert(before.at(j, k));
                            }
                        }
                        if before@.contains_key(k) {
                            let j = choose|j: int| before.at(j, k);
                            assert(self.at(j, k));
                        }
                        if k == key@ {
                            assert(self.at(n, k));
                        }
                    }
                    assert forall|k: Seq<char>| self@.contains_key(k) implies self@[k]
                        == before@.insert(key@, value)[k] by {
                        let j = choose|j: int| self.at(j, k);
                        self.lemma_row(j);
                        if k != key@ {
                            assert(before.at(j, k));
                            before.lemma_row(j);
                        }
                    }
                    assert(self@ =~= before@.insert(key@, value));
                }
            },
        }
    }

    /// Takes the row at a place out of the table.
    pub fn remove_at(&mut self, i: usize) -> (r: V)
        requires
            old(self).wf(),
            i < old(self).entries.len(),
        ensures
            final(self).wf(),
            final(self)@ == old(self)@.remove(old(self).entries[i as int].key@),
            r == old(self).entries[i as int].value,
            final(self).entries@ == old(self).entries@.remove(i as int),
    {
        let ghost before = *self;
        let ghost key = self.entries[i as int].key@;
        let gone = self.entries.remove(i);
        proof {
            assert forall|a: int, b: int| 0 <= a < b < self.entries.len() implies self.entries[a].key@
                != self.entries[b].key@ by {
                let a0 = if a < i { a } else { a + 1 };
                let b0 = if b < i { b } else { b + 1 };
                assert(self.entries[a] == before.entries[a0]);
                assert(self.entries[b] == before.entries[b0]);
            }
            assert forall|k: Seq<char>|
                self@.contains_key(k) == before@.remove(key).contains_key(k) by {
                if self@.contains_key(k) {
                    let j = choose|j: int| self.at(j, k);
                    let j0 = if j < i { j } else { j + 1 };
                    assert(self.entries[j] == before.entries[j0]);
                    assert(before.at(j0, k));
                }
                if before@.contains_key(k) && k != key {
                    let j0 = choose|j: int| before.at(j, k);
                    let j = if j0 < i { j0 } else { j0 - 1 };
                    assert(self.entries[j] == before.entries[j0]);
                    assert(self.at(j, k));
                }
            }
            assert forall|k: Seq<char>| self@.contains_key(k) implies self@[k] == before@.remove(
                key,
            )[k] by {
                let j = choose|j: int| self.at(j, k);
                let j0 = if j < i { j } else { j + 1 };
                assert(self.entries[j] == before.entries[j0]);
                self.lemma_row(j);
                before.lemma_row(j0);
            }
            assert(self@ =~= before@.remove(key));
        }
        gone.value
    }

    /// Takes the row with the given key out of the table, if there is one.
    pub fn remove(&mut self, key: &str) -> (r: Option<V>)
        requires
            old(self).wf(),
        ensures
            final(self).wf(),
            final(self)@ == old(self)@.remove(key@),
            r == (if old(self)@.contains_key(key@) {
                Some(old(self)@[key@])
            } else {
                None
            }),
    {
        match self.find(key) {
            Some(i) => {
                proof {
                    self.lemma_row(i as int);
                }
                Some(self.remove_at(i))
            },
            None => {
                assert(self@ =~= self@.remove(key@));
                None
            },
        }
    }
}

} // verus!
