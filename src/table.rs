//! A table keyed by text, with unique keys, viewed as a map.

use vstd::prelude::*;
use crate::text::str_eq;

verus! {

/// The keys of a list of entries.
pub open spec fn keys_of<V>(s: Seq<(String, V)>) -> Seq<Seq<char>> {
    s.map_values(|e: (String, V)| e.0@)
}

/// Entries with unique keys; a key that is inserted again keeps its place and
/// takes the new value.
#[derive(Debug, PartialEq, Eq)]
pub struct Table<V: View> {
    entries: Vec<(String, V)>,
}

/// The map that a list of entries with unique keys stands for.
pub open spec fn map_of<V: View>(s: Seq<(String, V)>) -> Map<Seq<char>, V::V> {
    let ks = keys_of(s);
    Map::new(|k: Seq<char>| ks.contains(k), |k: Seq<char>| s[ks.index_of(k)].1@)
}

proof fn lemma_lookup<V: View>(s: Seq<(String, V)>, i: int)
    requires
        keys_of(s).no_duplicates(),
        0 <= i < s.len(),
    ensures
        map_of(s).contains_key(s[i].0@),
        map_of(s)[s[i].0@] == s[i].1@,
{
    let ks = keys_of(s);
    assert(ks[i] == s[i].0@);
    assert(ks.contains(ks[i]));
}

impl<V: View> View for Table<V> {
    type V = Map<Seq<char>, V::V>;

    closed spec fn view(&self) -> Map<Seq<char>, V::V> {
        map_of(self.entries@)
    }
}

impl<V: View> Table<V> {
    #[verifier::type_invariant]
    spec fn inv(self) -> bool {
        keys_of(self.entries@).no_duplicates()
    }

    proof fn lemma_len(&self)
        requires
            keys_of(self.entries@).no_duplicates(),
        ensures
            self@.len() == self.entries@.len(),
            self@.dom().finite(),
    {
        let ks = keys_of(self.entries@);
        assert(self@.dom() =~= ks.to_set());
        ks.unique_seq_to_set();
    }

    /// An empty table.
    pub fn new() -> (r: Self)
        ensures
            r@ == Map::<Seq<char>, V::V>::empty(),
    {
        let r = Table { entries: Vec::new() };
        assert(r@ =~= Map::<Seq<char>, V::V>::empty());
        r
    }

    fn position(&self, key: &str) -> (r: Option<usize>)
        ensures
            match r {
                Some(i) => i < self.entries@.len() && self.entries@[i as int].0@ == key@,
                None => !self@.contains_key(key@),
            },
    {
        let mut i: usize = 0;
        while i < self.entries.len()
            invariant
                i <= self.entries@.len(),
                forall|j: int| 0 <= j < i ==> self.entries@[j].0@ != key@,
            decreases self.entries.len() - i,
        {
            if str_eq(self.entries[i].0.as_str(), key) {
                return Some(i);
            }
            i += 1;
        }
        assert(!keys_of(self.entries@).contains(key@));
        None
    }

    /// The number of keys.
    pub fn len(&self) -> (r: usize)
        ensures
            r == self@.len(),
    {
        proof {
            use_type_invariant(self);
            self.lemma_len();
        }
        self.entries.len()
    }

    /// Whether the table has no key.
    pub fn is_empty(&self) -> (r: bool)
        ensures
            r == (self@.len() == 0),
    {
        self.len() == 0
    }

    /// Whether `key` is present.
    pub fn contains_key(&self, key: &str) -> (r: bool)
        ensures
            r == self@.contains_key(key@),
    {
        proof {
            use_type_invariant(self);
        }
        match self.position(key) {
            Some(i) => {
                proof {
                    lemma_lookup(self.entries@, i as int);
                }
                true
            },
            None => false,
        }
    }

    /// The value under `key`.
    pub fn get(&self, key: &str) -> (r: Option<&V>)
        ensures
            match r {
                Some(v) => self@.contains_key(key@) && v@ == self@[key@],
                None => !self@.contains_key(key@),
            },
    {
        proof {
            use_type_invariant(self);
        }
        match self.position(key) {
            Some(i) => {
                proof {
                    lemma_lookup(self.entries@, i as int);
                }
                Some(&self.entries[i].1)
            },
            None => None,
        }
    }

    /// Puts `value` under `key`, returning the value it replaces.
    pub fn insert(&mut self, key: String, value: V) -> (r: Option<V>)
        ensures
            final(self)@ == old(self)@.insert(key@, value@),
            match r {
                Some(v) => old(self)@.contains_key(key@) && v@ == old(self)@[key@],
                None => !old(self)@.contains_key(key@),
            },
    {
        proof {
            use_type_invariant(&*self);
        }
        let ghost before = self.entries@;
        let ghost k = key@;
        let ghost v = value@;
        match self.position(key.as_str()) {
            Some(i) => {
                proof {
                    lemma_lookup(self.entries@, i as int);
                }
                let mut entries = Vec::new();
                std::mem::swap(&mut entries, &mut self.entries);
                let (_, previous) = entries.remove(i);
                entries.insert(i, (key, value));
                proof {
                    assert(entries@ =~= before.update(i as int, entries@[i as int]));
                    assert(keys_of(entries@) =~= keys_of(before).update(i as int, k));
                    assert(keys_of(entries@) =~= keys_of(before));
                }
                self.entries = entries;
                proof {
                    assert forall|q: Seq<char>| #[trigger] self@.contains_key(q) implies self@[q]
                        == map_of(before).insert(k, v)[q] by {
                        let ks = keys_of(self.entries@);
                        assert(ks.contains(q));
                        let j = ks.index_of(q);
                        assert(ks[j] == q);
                        assert(self.entries@[j].0@ == q);
                        lemma_lookup(self.entries@, j);
                        if q != k {
                            assert(j != i);
                            assert(self.entries@[j] == before[j]);
                            lemma_lookup(before, j);
                        } else {
                            assert(self.entries@[i as int].0@ == k);
                            assert(ks[i as int] == k);
                            assert(j == i);
                        }
                    }
                    assert forall|q: Seq<char>| #[trigger] map_of(before).insert(k, v).contains_key(q)
                        implies self@.contains_key(q) by {
                        if q != k {
                            let j = keys_of(before).index_of(q);
                            assert(self.entries@[j] == before[j]);
                            lemma_lookup(self.entries@, j);
                        } else {
                            lemma_lookup(self.entries@, i as int);
                        }
                    }
                    assert(self@ =~= map_of(before).insert(k, v));
                }
                Some(previous)
            },
            None => {
                let mut entries = Vec::new();
                std::mem::swap(&mut entries, &mut self.entries);
                entries.push((key, value));
                proof {
                    assert(keys_of(entries@) =~= keys_of(before).push(k));
                    assert(!keys_of(before).contains(k));
                }
                self.entries = entries;
                proof {
                    let n = before.len() as int;
                    lemma_lookup(self.entries@, n);
                    assert forall|q: Seq<char>| #[trigger] self@.contains_key(q) implies self@[q]
                        == map_of(before).insert(k, v)[q] by {
                        let ks = keys_of(self.entries@);
                        assert(ks.contains(q));
                        let j = ks.index_of(q);
                        assert(ks[j] == q);
                        assert(self.entries@[j].0@ == q);
                        lemma_lookup(self.entries@, j);
                        if q != k {
                            assert(ks[n] == k);
                            assert(j < n);
                            assert(self.entries@[j] == before[j]);
                            lemma_lookup(before, j);
                            assert(map_of(before)[q] == before[j].1@);
                        } else {
                            assert(self@[q] == v);
                        }
                    }
                    assert forall|q: Seq<char>| #[trigger] map_of(before).insert(k, v).contains_key(q)
                        implies self@.contains_key(q) by {
                        if q != k {
                            let j = keys_of(before).index_of(q);
                            lemma_lookup(self.entries@, j);
                        }
                    }
                    assert(self@ =~= map_of(before).insert(k, v));
                }
                None
            },
        }
    }

    /// Takes out the value under `key`.
    pub fn remove(&mut self, key: &str) -> (r: Option<V>)
        ensures
            final(self)@ == old(self)@.remove(key@),
            match r {
                Some(v) => old(self)@.contains_key(key@) && v@ == old(self)@[key@],
                None => !old(self)@.contains_key(key@),
            },
    {
        proof {
            use_type_invariant(&*self);
        }
        let ghost before = self.entries@;
        match self.position(key) {
            Some(i) => {
                proof {
                    lemma_lookup(self.entries@, i as int);
                }
                let mut entries = Vec::new();
                std::mem::swap(&mut entries, &mut self.entries);
                let (_, previous) = entries.remove(i);
                proof {
                    assert(keys_of(entries@) =~= keys_of(before).remove(i as int));
                }
                self.entries = entries;
                proof {
                    assert forall|q: Seq<char>| #[trigger] self@.contains_key(q) implies q != key@
                        && map_of(before).contains_key(q) && self@[q] == map_of(before)[q] by {
                        let ks = keys_of(self.entries@);
                        assert(ks.contains(q));
                        let j = ks.index_of(q);
                        assert(ks[j] == q);
                        assert(self.entries@[j].0@ == q);
                        lemma_lookup(self.entries@, j);
                                                if j < i {
                            assert(self.entries@[j] == before[j]);
                            lemma_lookup(before, j);
                            assert(keys_of(before)[j] != keys_of(before)[i as int]);
                        } else {
                            assert(self.entries@[j] == before[j + 1]);
                            lemma_lookup(before, j + 1);
                            assert(keys_of(before)[j + 1] != keys_of(before)[i as int]);
                        }
                    }
                    assert forall|q: Seq<char>| #[trigger] map_of(before).remove(key@).contains_key(q)
                        implies self@.contains_key(q) by {
                        let j = keys_of(before).index_of(q);
                        if j < i {
                            lemma_lookup(self.entries@, j);
                        } else {
                            assert(j != i);
                            lemma_lookup(self.entries@, j - 1);
                        }
                    }
                    assert(self@ =~= map_of(before).remove(key@));
                }
                Some(previous)
            },
            None => {
                assert(map_of(before) =~= map_of(before).remove(key@));
                None
            },
        }
    }

    /// Takes out every key.
    pub fn clear(&mut self)
        ensures
            final(self)@ == Map::<Seq<char>, V::V>::empty(),
    {
        self.entries = Vec::new();
        assert(self@ =~= Map::<Seq<char>, V::V>::empty());
    }

    /// The entries, in the order their keys were first inserted.
    pub fn entries(&self) -> (r: &Vec<(String, V)>)
        ensures
            keys_of(r@).no_duplicates(),
            map_of(r@) == self@,
    {
        proof {
            use_type_invariant(self);
        }
        &self.entries
    }
}

/// Appending an entry with a new key adds that key to the map.
pub proof fn lemma_map_of_push<V: View>(s: Seq<(String, V)>, e: (String, V))
    requires
        keys_of(s.push(e)).no_duplicates(),
    ensures
        keys_of(s).no_duplicates(),
        map_of(s.push(e)) == map_of(s).insert(e.0@, e.1@),
{
    let t = s.push(e);
    let n = s.len() as int;
    assert(keys_of(t) =~= keys_of(s).push(e.0@));
    assert(keys_of(s) =~= keys_of(t).subrange(0, n));
    assert forall|q: Seq<char>| #[trigger] map_of(t).contains_key(q) implies map_of(s).insert(
        e.0@,
        e.1@,
    ).contains_key(q) && map_of(t)[q] == map_of(s).insert(e.0@, e.1@)[q] by {
        let j = keys_of(t).index_of(q);
        assert(keys_of(t)[j] == q);
        assert(t[j].0@ == q);
        lemma_lookup(t, j);
        if j < n {
            assert(t[j] == s[j]);
            lemma_lookup(s, j);
            assert(keys_of(t)[j] != keys_of(t)[n]);
        }
    }
    assert forall|q: Seq<char>| #[trigger] map_of(s).insert(e.0@, e.1@).contains_key(q)
        implies map_of(t).contains_key(q) by {
        if q == e.0@ {
            lemma_lookup(t, n);
        } else {
            let j = keys_of(s).index_of(q);
            assert(t[j] == s[j]);
            lemma_lookup(t, j);
        }
    }
    assert(map_of(t) =~= map_of(s).insert(e.0@, e.1@));
}

} // verus!
