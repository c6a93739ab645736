//! A small map from strings to values, kept as a list of entries in which no
//! key occurs twice. Its view is a mathematical map keyed by the characters of
//! the key.

use vstd::prelude::*;

verus! {

/// One key with its value.
struct Entry<V> {
    key: String,
    value: V,
}

/// A map keyed by strings. Lookups walk the entries in order.
pub struct StringMap<V> {
    entries: Vec<Entry<V>>,
}

impl<V> View for StringMap<V> {
    type V = Map<Seq<char>, V>;

    closed spec fn view(&self) -> Map<Seq<char>, V> {
        Map::new(
            |k: Seq<char>| self.position_of(k) is Some,
            |k: Seq<char>| self.entries@[self.position_of(k).unwrap()].value,
        )
    }
}

impl<V> StringMap<V> {
    /// Whether entry `i` exists and carries the key `k`.
    spec fn holds_at(&self, k: Seq<char>, i: int) -> bool {
        0 <= i < self.entries@.len() && self.entries@[i].key@ == k
    }

    /// The place of key `k` among the entries, if it has one.
    spec fn position_of(&self, k: Seq<char>) -> Option<int> {
        if exists|i: int| self.holds_at(k, i) {
            Some(choose|i: int| self.holds_at(k, i))
        } else {
            None
        }
    }

    /// No key occurs twice.
    pub closed spec fn wf(&self) -> bool {
        forall|i: int, j: int|
            0 <= i < j < self.entries@.len() ==> self.entries@[i].key@ != self.entries@[j].key@
    }

    /// The keys of the first `n` entries.
    spec fn keys_upto(&self, n: int) -> Set<Seq<char>> {
        Set::new(|k: Seq<char>| exists|i: int| 0 <= i < n && self.holds_at(k, i))
    }

    /// Without a key that occurs twice, the first `n` entries carry `n` keys.
    proof fn lemma_keys_upto(&self, n: int)
        requires
            self.wf(),
            0 <= n <= self.entries@.len(),
        ensures
            self.keys_upto(n).finite(),
            self.keys_upto(n).len() == n,
        decreases n,
    {
        if n == 0 {
            assert(self.keys_upto(0) =~= Set::<Seq<char>>::empty());
        } else {
            self.lemma_keys_upto(n - 1);
            let k = self.entries@[n - 1].key@;
            assert(self.holds_at(k, n - 1));
            assert(!self.keys_upto(n - 1).contains(k)) by {
                if self.keys_upto(n - 1).contains(k) {
                    let i = choose|i: int| 0 <= i < n - 1 && self.holds_at(k, i);
                    assert(self.entries@[i].key@ != self.entries@[n - 1].key@);
                }
            }
            assert(self.keys_upto(n) =~= self.keys_upto(n - 1).insert(k)) by {
                assert forall|q: Seq<char>| self.keys_upto(n).contains(q) implies self.keys_upto(
                    n - 1,
                ).insert(k).contains(q) by {
                    let i = choose|i: int| 0 <= i < n && self.holds_at(q, i);
                    if i < n - 1 {
                        assert(self.keys_upto(n - 1).contains(q));
                    }
                }
                assert forall|q: Seq<char>| self.keys_upto(n - 1).insert(k).contains(
                    q,
                ) implies self.keys_upto(n).contains(q) by {
                    if q != k {
                        let i = choose|i: int| 0 <= i < n - 1 && self.holds_at(q, i);
                        assert(0 <= i < n && self.holds_at(q, i));
                    }
                }
            }
        }
    }

    /// A sound map has finitely many keys: as many as it has entries.
    proof fn lemma_len(&self)
        requires
            self.wf(),
        ensures
            self@.dom().finite(),
            self@.dom().len() == self.entries@.len(),
    {
        let n = self.entries@.len() as int;
        self.lemma_keys_upto(n);
        assert(self@.dom() =~= self.keys_upto(n)) by {
            assert forall|q: Seq<char>| self@.dom().contains(q) implies self.keys_upto(n).contains(
                q,
            ) by {
                let i = self.position_of(q).unwrap();
                assert(self.holds_at(q, i));
            }
            assert forall|q: Seq<char>| self.keys_upto(n).contains(q) implies self@.dom().contains(
                q,
            ) by {
                let i = choose|i: int| 0 <= i < n && self.holds_at(q, i);
                self.lemma_position(q, i);
            }
        }
    }

    /// With no key twice, the entry that carries `k` is the one the view reads.
    proof fn lemma_position(&self, k: Seq<char>, i: int)
        requires
            self.wf(),
            self.holds_at(k, i),
        ensures
            self.position_of(k) == Some(i),
            self@.contains_key(k),
            self@[k] == self.entries@[i].value,
    {
        let j = choose|j: int| self.holds_at(k, j);
        assert(self.holds_at(k, j));
        if i < j {
            assert(self.entries@[i].key@ != self.entries@[j].key@);
        } else if j < i {
            assert(self.entries@[j].key@ != self.entries@[i].key@);
        }
    }

    /// A key that no entry carries is not in the view.
    proof fn lemma_absent(&self, k: Seq<char>)
        requires
            forall|i: int| 0 <= i < self.entries@.len() ==> self.entries@[i].key@ != k,
        ensures
            self.position_of(k) is None,
            !self@.contains_key(k),
    {
        assert forall|i: int| !self.holds_at(k, i) by {}
    }

    /// An empty map.
    pub fn new() -> (m: Self)
        ensures
            m.wf(),
            m@ == Map::<Seq<char>, V>::empty(),
    {
        let m = StringMap { entries: Vec::new() };
        proof {
            assert forall|k: Seq<char>| !m@.contains_key(k) by {
                m.lemma_absent(k);
            }
            assert(m@ =~= Map::<Seq<char>, V>::empty());
        }
        m
    }

    /// The number of entries.
    pub fn len(&self) -> (n: usize)
        requires
            self.wf(),
        ensures
            self@.dom().finite(),
            n == self@.dom().len(),
    {
        proof {
            self.lemma_len();
        }
        self.entries.len()
    }

    /// The place of `key` among the entries.
    fn find(&self, key: &str) -> (r: Option<usize>)
        requires
            self.wf(),
        ensures
            match r {
                Some(i) => self.holds_at(key@, i as int),
                None => !self@.contains_key(key@),
            },
    {
        let wanted = String::from_str(key);
        let mut i: usize = 0;
        while i < self.entries.len()
            invariant
                i <= self.entries@.len(),
                wanted@ == key@,
                forall|j: int| 0 <= j < i ==> self.entries@[j].key@ != key@,
            decreases self.entries@.len() - i,
        {
            if self.entries[i].key == wanted {
                return Some(i);
            }
            i += 1;
        }
        proof {
            self.lemma_absent(key@);
        }
        None
    }

    /// Whether `key` has a value.
    pub fn contains_key(&self, key: &str) -> (r: bool)
        requires
            self.wf(),
        ensures
            r == self@.contains_key(key@),
    {
        match self.find(key) {
            Some(i) => {
                proof {
                    self.lemma_position(key@, i as int);
                }
                true
            },
            None => false,
        }
    }

    /// The value stored under `key`, if there is one.
    pub fn get(&self, key: &str) -> (r: Option<&V>)
        requires
            self.wf(),
        ensures
            match r {
                Some(v) => self@.contains_key(key@) && *v == self@[key@],
                None => !self@.contains_key(key@),
            },
    {
        match self.find(key) {
            Some(i) => {
                proof {
                    self.lemma_position(key@, i as int);
                }
                Some(&self.entries[i].value)
            },
            None => None,
        }
    }

    /// Stores `value` under `key`, replacing what was stored there before.
    pub fn insert(&mut self, key: String, value: V)
        requires
            old(self).wf(),
        ensures
            final(self).wf(),
            final(self)@ == old(self)@.insert(key@, value),
    {
        let ghost before = *self;
        let found = self.find(key.as_str());
        match found {
            Some(i) => {
                proof {
                    before.lemma_position(key@, i as int);
                }
                self.entries[i] = Entry { key, value };
                proof {
                    assert(self.entries@ == before.entries@.update(i as int, self.entries@[i as int]));
                    assert forall|a: int, b: int| 0 <= a < b < self.entries@.len() implies self.entries@[a].key@
                        != self.entries@[b].key@ by {
                        assert(self.entries@[a].key@ == before.entries@[a].key@);
                        assert(self.entries@[b].key@ == before.entries@[b].key@);
                    }
                    self.lemma_insert_view(before, key@, value, i as int);
                }
            },
            None => {
                proof {
                    assert forall|j: int| 0 <= j < before.entries@.len() implies before.entries@[j].key@
                        != key@ by {
                        if before.entries@[j].key@ == key@ {
                            before.lemma_position(key@, j);
                        }
                    }
                }
                self.entries.push(Entry { key, value });
                proof {
                    let i = before.entries@.len() as int;
                    assert forall|a: int, b: int| 0 <= a < b < self.entries@.len() implies self.entries@[a].key@
                        != self.entries@[b].key@ by {
                        assert(self.entries@[a] == before.entries@[a]);
                        if b < i {
                            assert(self.entries@[b] == before.entries@[b]);
                        }
                    }
                    self.lemma_insert_view(before, key@, value, i);
                }
            },
        }
    }

    /// What `insert` does to the view: entry `i` now holds `k` with `v`, and
    /// every other entry is as it was.
    proof fn lemma_insert_view(&self, before: Self, k: Seq<char>, v: V, i: int)
        requires
            self.wf(),
            before.wf(),
            self.holds_at(k, i),
            self.entries@[i].value == v,
            i < before.entries@.len() ==> before.holds_at(k, i),
            i <= before.entries@.len(),
            forall|j: int|
                0 <= j < before.entries@.len() && j != i ==> #[trigger] self.entries@[j]
                    == before.entries@[j],
            self.entries@.len() == if i < before.entries@.len() {
                before.entries@.len()
            } else {
                before.entries@.len() + 1
            },
        ensures
            self@ == before@.insert(k, v),
    {
        let after = before@.insert(k, v);
        self.lemma_position(k, i);
        assert forall|q: Seq<char>| self@.contains_key(q) == after.contains_key(q) by {
            if q != k {
                if self@.contains_key(q) {
                    let j = self.position_of(q).unwrap();
                    assert(self.holds_at(q, j));
                    assert(before.holds_at(q, j));
                    before.lemma_position(q, j);
                }
                if before@.contains_key(q) {
                    let j = before.position_of(q).unwrap();
                    assert(before.holds_at(q, j));
                    assert(self.holds_at(q, j));
                    self.lemma_position(q, j);
                }
            }
        }
        assert forall|q: Seq<char>| self@.contains_key(q) implies self@[q] == after[q] by {
            if q != k {
                let j = self.position_of(q).unwrap();
                assert(self.holds_at(q, j));
                assert(before.holds_at(q, j));
                before.lemma_position(q, j);
            }
        }
        assert(self@ =~= after);
    }
}

} // verus!
