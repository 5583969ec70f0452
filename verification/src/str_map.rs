//! A map keyed by strings, kept as a list of entries with distinct keys.

use vstd::prelude::*;

verus! {

/// A finite map from strings to values. Inserting a key that is present
/// replaces its value.
#[derive(Debug)]
pub struct StrMap<V> {
    entries: Vec<(String, V)>,
}

impl<V> StrMap<V> {
    /// No key occurs twice among the entries.
    #[verifier::type_invariant]
    closed spec fn keys_distinct(self) -> bool {
        forall|i: int, j: int|
            0 <= i < j < self.entries@.len() ==> #[trigger] self.entries@[i].0@
                != #[trigger] self.entries@[j].0@
    }

    /// Whether an entry has the key `k`.
    closed spec fn has_key(self, k: Seq<char>) -> bool {
        exists|i: int| 0 <= i < self.entries@.len() && #[trigger] self.entries@[i].0@ == k
    }

    /// The position of the entry with key `k`.
    closed spec fn position(self, k: Seq<char>) -> int {
        choose|i: int| 0 <= i < self.entries@.len() && #[trigger] self.entries@[i].0@ == k
    }

}

impl<V: View> StrMap<V> {
    /// The number of entries.
    pub closed spec fn spec_len(self) -> nat {
        self.entries@.len()
    }

    /// The key of the entry at position `i`.
    pub closed spec fn key_at(self, i: int) -> Seq<char> {
        self.entries@[i].0@
    }

    /// The value of the entry at position `i`.
    pub closed spec fn value_at(self, i: int) -> V::V {
        self.entries@[i].1@
    }

    /// Every entry is in the map, and every key of the map is an entry's.
    proof fn lemma_entries(self)
        requires
            self.keys_distinct(),
        ensures
            forall|i: int|
                0 <= i < self.spec_len() ==> #[trigger] self@.contains_key(self.key_at(i))
                    && self@[self.key_at(i)] == self.value_at(i),
            forall|k: Seq<char>|
                #[trigger] self@.contains_key(k) ==> exists|i: int|
                    0 <= i < self.spec_len() && self.key_at(i) == k,
            forall|i: int, j: int|
                0 <= i < j < self.spec_len() ==> self.key_at(i) != self.key_at(j),
    {
        assert forall|i: int| 0 <= i < self.spec_len() implies #[trigger] self@.contains_key(
            self.key_at(i),
        ) && self@[self.key_at(i)] == self.value_at(i) by {
            let k = self.key_at(i);
            assert(self.has_key(k));
            let p = self.position(k);
            if p < i {
                assert(self.entries@[p].0@ != self.entries@[i].0@);
            }
            if i < p {
                assert(self.entries@[i].0@ != self.entries@[p].0@);
            }
        }
        assert forall|k: Seq<char>| #[trigger] self@.contains_key(k) implies exists|i: int|
            0 <= i < self.spec_len() && self.key_at(i) == k by {
            let i = self.position(k);
            assert(self.key_at(i) == k);
        }
        assert forall|i: int, j: int| 0 <= i < j < self.spec_len() implies self.key_at(i)
            != self.key_at(j) by {
            assert(self.entries@[i].0@ != self.entries@[j].0@);
        }
    }

    /// The empty map.
    pub fn new() -> (m: Self)
        ensures
            m@ == Map::<Seq<char>, V::V>::empty(),
            m.spec_len() == 0,
    {
        let m = StrMap { entries: Vec::new() };
        assert(m@ =~= Map::<Seq<char>, V::V>::empty());
        m
    }

    /// The number of entries; the entries are exactly the map's contents.
    pub fn len(&self) -> (n: usize)
        ensures
            n == self.spec_len(),
            forall|i: int|
                0 <= i < self.spec_len() ==> #[trigger] self@.contains_key(self.key_at(i))
                    && self@[self.key_at(i)] == self.value_at(i),
            forall|k: Seq<char>|
                #[trigger] self@.contains_key(k) ==> exists|i: int|
                    0 <= i < self.spec_len() && self.key_at(i) == k,
            forall|i: int, j: int|
                0 <= i < j < self.spec_len() ==> self.key_at(i) != self.key_at(j),
    {
        proof {
            use_type_invariant(self);
            self.lemma_entries();
        }
        self.entries.len()
    }

    /// The entry at position `i`.
    pub fn entry(&self, i: usize) -> (r: (&String, &V))
        requires
            i < self.spec_len(),
        ensures
            r.0@ == self.key_at(i as int),
            r.1@ == self.value_at(i as int),
    {
        let e = &self.entries[i];
        (&e.0, &e.1)
    }

    /// The position of the entry with key `key`, if there is one.
    fn find(&self, key: &String) -> (r: Option<usize>)
        ensures
            match r {
                Some(i) => i < self.spec_len() && self.key_at(i as int) == key@,
                None => forall|j: int| 0 <= j < self.spec_len() ==> self.key_at(j) != key@,
            },
    {
        let n = self.entries.len();
        let mut i: usize = 0;
        while i < n
            invariant
                i <= n == self.entries@.len(),
                forall|j: int| 0 <= j < i ==> self.entries@[j].0@ != key@,
            decreases n - i,
        {
            if self.entries[i].0 == *key {
                return Some(i);
            }
            i = i + 1;
        }
        None
    }

    /// The value stored under `key`, if any.
    pub fn get(&self, key: &String) -> (r: Option<&V>)
        ensures
            match r {
                Some(v) => self@.contains_key(key@) && v@ == self@[key@],
                None => !self@.contains_key(key@),
            },
    {
        proof {
            use_type_invariant(self);
            self.lemma_entries();
        }
        match self.find(key) {
            Some(i) => Some(&self.entries[i].1),
            None => None,
        }
    }

    /// Stores `value` under `key`, replacing the value that was there.
    pub fn insert(&mut self, key: String, value: V)
        ensures
            final(self)@ == old(self)@.insert(key@, value@),
    {
        proof {
            use_type_invariant(&*self);
            self.lemma_entries();
        }
        let ghost old_self = *self;
        let ghost kv = key@;
        let ghost vv = value@;
        let found = self.find(&key);
        let mut entries: Vec<(String, V)> = Vec::new();
        std::mem::swap(&mut entries, &mut self.entries);
        let ghost n = entries@.len();
        match found {
            Some(i) => {
                entries.set(i, (key, value));
            },
            None => {
                entries.push((key, value));
            },
        }
        proof {
            assert forall|a: int, b: int|
                0 <= a < b < entries@.len() implies #[trigger] entries@[a].0@
                != #[trigger] entries@[b].0@ by {
                if b < n {
                    assert(old_self.key_at(a) != old_self.key_at(b) || a == found.unwrap() || b == found.unwrap());
                    if found is Some {
                        let i = found.unwrap() as int;
                        if a == i {
                            assert(old_self.key_at(a) != old_self.key_at(b));
                        }
                        if b == i {
                            assert(old_self.key_at(a) != old_self.key_at(b));
                        }
                    }
                } else {
                    assert(old_self.key_at(a) != kv);
                }
            }
        }
        self.entries = entries;
        proof {
            let ghost m = old_self@.insert(kv, vv);
            self.lemma_entries();
            assert forall|k: Seq<char>| #[trigger] self@.contains_key(k) == m.contains_key(k) by {
                if old_self@.contains_key(k) {
                    let j = choose|j: int| 0 <= j < old_self.spec_len() && old_self.key_at(j) == k;
                    assert(self.key_at(j) == k || self.key_at(j) == kv);
                }
                if k == kv {
                    if found is Some {
                        assert(self.key_at(found.unwrap() as int) == kv);
                    } else {
                        assert(self.key_at(n as int) == kv);
                    }
                }
                if self@.contains_key(k) {
                    let j = choose|j: int| 0 <= j < self.spec_len() && self.key_at(j) == k;
                    assert(old_self.key_at(j) == k || self.key_at(j) == kv);
                }
            }
            assert forall|k: Seq<char>| #[trigger] self@.contains_key(k) implies self@[k] == m[k] by {
                let j = choose|j: int| 0 <= j < self.spec_len() && self.key_at(j) == k;
                if k != kv {
                    assert(old_self.key_at(j) == k);
                } else {
                    if found is Some {
                        assert(j == found.unwrap());
                    } else {
                        if j < n {
                            assert(self.entries@[j] == old_self.entries@[j]);
                            assert(old_self.key_at(j) != kv);
                        }
                    }
                }
            }
            assert(self@ =~= m);
        }
    }
}

impl<V: View> View for StrMap<V> {
    type V = Map<Seq<char>, V::V>;

    closed spec fn view(&self) -> Map<Seq<char>, V::V> {
        Map::new(|k: Seq<char>| self.has_key(k), |k: Seq<char>| self.entries@[self.position(k)].1@)
    }
}

} // verus!
