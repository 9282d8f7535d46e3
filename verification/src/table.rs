//! A small association table keyed by text, holding each key at most once.

use vstd::prelude::*;

verus! {

/// An association from text keys to values. Each key occurs at most once.
#[derive(Debug)]
pub struct Table<V> {
    entries: Vec<(String, V)>,
}

impl<V> View for Table<V> {
    type V = Map<Seq<char>, V>;

    closed spec fn view(&self) -> Map<Seq<char>, V> {
        Map::new(
            |k: Seq<char>| self.position(k) is Some,
            |k: Seq<char>| self.entries@[self.position(k).unwrap()].1,
        )
    }
}

impl<V> Table<V> {
    /// The index at which `key` is stored, if it is stored.
    closed spec fn position(&self, key: Seq<char>) -> Option<int> {
        if exists|i: int| 0 <= i < self.entries@.len() && self.entries@[i].0@ == key {
            Some(choose|i: int| 0 <= i < self.entries@.len() && self.entries@[i].0@ == key)
        } else {
            None
        }
    }

    /// No key is stored twice.
    pub closed spec fn wf(&self) -> bool {
        forall|i: int, j: int|
            0 <= i < j < self.entries@.len() ==> self.entries@[i].0@ != self.entries@[j].0@
    }

    proof fn lemma_at(&self, i: int)
        requires
            self.wf(),
            0 <= i < self.entries@.len(),
        ensures
            self.position(self.entries@[i].0@) == Some(i),
            self@.contains_key(self.entries@[i].0@),
            self@[self.entries@[i].0@] == self.entries@[i].1,
    {
        let key = self.entries@[i].0@;
        let j = choose|j: int| 0 <= j < self.entries@.len() && self.entries@[j].0@ == key;
        assert(j == i);
    }

    proof fn lemma_absent(&self, key: Seq<char>)
        requires
            forall|i: int| 0 <= i < self.entries@.len() ==> self.entries@[i].0@ != key,
        ensures
            !self@.contains_key(key),
    {
    }

    /// A table that holds nothing.
    pub fn new() -> (t: Self)
        ensures
            t.wf(),
            t@ == Map::<Seq<char>, V>::empty(),
    {
        let t = Table { entries: Vec::new() };
        assert(t@ =~= Map::<Seq<char>, V>::empty());
        t
    }

    fn index_of(&self, key: &String) -> (r: Option<usize>)
        requires
            self.wf(),
        ensures
            match r {
                Some(i) => i < self.entries@.len() && self.entries@[i as int].0@ == key@,
                None => forall|i: int|
                    0 <= i < self.entries@.len() ==> self.entries@[i].0@ != key@,
            },
    {
        let mut i: usize = 0;
        while i < self.entries.len()
            invariant
                i <= self.entries@.len(),
                forall|j: int| 0 <= j < i ==> self.entries@[j].0@ != key@,
            decreases self.entries@.len() - i,
        {
            if self.entries[i].0 == *key {
                return Some(i);
            }
            i += 1;
        }
        None
    }

    /// The value stored under `key`, if there is one.
    pub fn get(&self, key: &String) -> (r: Option<&V>)
        requires
            self.wf(),
        ensures
            match r {
                Some(v) => self@.contains_key(key@) && *v == self@[key@],
                None => !self@.contains_key(key@),
            },
    {
        match self.index_of(key) {
            Some(i) => {
                proof {
                    self.lemma_at(i as int);
                }
                Some(&self.entries[i].1)
            },
            None => {
                proof {
                    self.lemma_absent(key@);
                }
                None
            },
        }
    }

    /// Stores `value` under `key`, in place of what was stored there before.
    pub fn insert(&mut self, key: String, value: V)
        requires
            old(self).wf(),
        ensures
            final(self).wf(),
            final(self)@ == old(self)@.insert(key@, value),
    {
        let ghost before = *self;
        let ghost k = key@;
        match self.index_of(&key) {
            Some(i) => {
                self.entries.set(i, (key, value));
                assert(self.wf());
                assert forall|e: Seq<char>| #[trigger] self@.contains_key(e) implies before@.insert(
                    k,
                    value,
                ).contains_key(e) && self@[e] == before@.insert(k, value)[e] by {
                    let j = self.position(e).unwrap();
                    self.lemma_at(j);
                    before.lemma_at(j);
                }
                assert forall|e: Seq<char>| #[trigger]
                    before@.insert(k, value).contains_key(e) implies self@.contains_key(e) by {
                    if e != k {
                        let j = before.position(e).unwrap();
                        before.lemma_at(j);
                        self.lemma_at(j);
                    } else {
                        self.lemma_at(i as int);
                    }
                }
            },
            None => {
                self.entries.push((key, value));
                assert(self.wf());
                let ghost n = before.entries@.len() as int;
                assert forall|e: Seq<char>| #[trigger] self@.contains_key(e) implies before@.insert(
                    k,
                    value,
                ).contains_key(e) && self@[e] == before@.insert(k, value)[e] by {
                    let j = self.position(e).unwrap();
                    self.lemma_at(j);
                    if j < n {
                        before.lemma_at(j);
                    }
                }
                assert forall|e: Seq<char>| #[trigger]
                    before@.insert(k, value).contains_key(e) implies self@.contains_key(e) by {
                    if e != k {
                        let j = before.position(e).unwrap();
                        before.lemma_at(j);
                        self.lemma_at(j);
                    } else {
                        self.lemma_at(n);
                    }
                }
            },
        }
        assert(self@ =~= before@.insert(k, value));
    }

    /// Removes every key.
    pub fn clear(&mut self)
        ensures
            final(self).wf(),
            final(self)@ == Map::<Seq<char>, V>::empty(),
    {
        self.entries.clear();
        assert(self@ =~= Map::<Seq<char>, V>::empty());
    }
}

} // verus!
