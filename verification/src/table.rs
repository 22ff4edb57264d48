//! A table from string keys to values, kept as a list of entries with
//! distinct keys. Its model is a finite map.
use vstd::prelude::*;

verus! {

/// No key occurs twice.
pub open spec fn keys_distinct<V>(s: Seq<(String, V)>) -> bool {
    forall|i: int, j: int|
        0 <= i < s.len() && 0 <= j < s.len() && i != j ==> #[trigger] s[i].0@ != #[trigger] s[j].0@
}

/// Some entry has the key `k`.
pub open spec fn has_key<V>(s: Seq<(String, V)>, k: Seq<char>) -> bool {
    exists|i: int| 0 <= i < s.len() && #[trigger] s[i].0@ == k
}

/// The map that the entries write.
pub open spec fn entries_map<V>(s: Seq<(String, V)>) -> Map<Seq<char>, V> {
    Map::new(
        |k: Seq<char>| has_key(s, k),
        |k: Seq<char>| s[choose|i: int| 0 <= i < s.len() && #[trigger] s[i].0@ == k].1,
    )
}

pub proof fn lemma_entries_map_at<V>(s: Seq<(String, V)>, i: int)
    requires
        keys_distinct(s),
        0 <= i < s.len(),
    ensures
        entries_map(s).dom().contains(s[i].0@),
        entries_map(s)[s[i].0@] == s[i].1,
{
    let k = s[i].0@;
    assert(has_key(s, k));
    let j = choose|j: int| 0 <= j < s.len() && #[trigger] s[j].0@ == k;
    assert(j == i);
}

pub proof fn lemma_entries_map_absent<V>(s: Seq<(String, V)>, k: Seq<char>)
    requires
        forall|i: int| 0 <= i < s.len() ==> #[trigger] s[i].0@ != k,
    ensures
        !entries_map(s).dom().contains(k),
{
}

/// A table of values under distinct string keys.
pub struct KeyedTable<V> {
    entries: Vec<(String, V)>,
}

impl<V> KeyedTable<V> {
    /// The map from keys to values.
    pub closed spec fn view(&self) -> Map<Seq<char>, V> {
        entries_map(self.entries@)
    }

    /// The keys are distinct.
    #[verifier::type_invariant]
    spec fn keys_are_distinct(&self) -> bool {
        keys_distinct(self.entries@)
    }

    /// An empty table.
    pub fn new() -> (t: Self)
        ensures
            t@ == Map::<Seq<char>, V>::empty(),
    {
        let t = KeyedTable { entries: Vec::new() };
        assert(t@ =~= Map::<Seq<char>, V>::empty());
        t
    }

    /// Where the entry of `key` stands.
    fn find(&self, key: &String) -> (r: Option<usize>)
        ensures
            match r {
                Some(i) => i < self.entries@.len() && self.entries@[i as int].0@ == key@,
                None => forall|j: int|
                    0 <= j < self.entries@.len() ==> #[trigger] self.entries@[j].0@ != key@,
            },
    {
        let mut i: usize = 0;
        while i < self.entries.len()
            invariant
                i <= self.entries@.len(),
                forall|j: int| 0 <= j < i ==> #[trigger] self.entries@[j].0@ != key@,
            decreases self.entries@.len() - i,
        {
            if self.entries[i].0 == *key {
                return Some(i);
            }
            i = i + 1;
        }
        None
    }

    /// The value under `key`.
    pub fn get(&self, key: &String) -> (r: Option<&V>)
        ensures
            match r {
                Some(v) => self@.dom().contains(key@) && *v == self@[key@],
                None => !self@.dom().contains(key@),
            },
    {
        proof {
            use_type_invariant(self);
        }
        match self.find(key) {
            Some(i) => {
                proof {
                    lemma_entries_map_at(self.entries@, i as int);
                }
                Some(&self.entries[i].1)
            },
            None => None,
        }
    }

    /// Puts `value` under `key`, and hands back the value that was there.
    pub fn insert(&mut self, key: String, value: V) -> (r: Option<V>)
        ensures
            final(self)@ == old(self)@.insert(key@, value),
            match r {
                Some(v) => old(self)@.dom().contains(key@) && v == old(self)@[key@],
                None => !old(self)@.dom().contains(key@),
            },
    {
        proof {
            use_type_invariant(&*self);
        }
        let ghost s0 = self.entries@;
        let found = self.find(&key);
        let mut entries: Vec<(String, V)> = Vec::new();
        std::mem::swap(&mut entries, &mut self.entries);
        match found {
            Some(i) => {
                proof {
                    lemma_entries_map_at(s0, i as int);
                }
                let k = key;
                let (_, previous) = entries.remove(i);
                entries.insert(i, (k, value));
                let ghost s1 = entries@;
                proof {
                    assert(s1 =~= s0.update(i as int, s1[i as int]));
                    assert(keys_distinct(s1)) by {
                        assert forall|a: int, b: int|
                            0 <= a < s1.len() && 0 <= b < s1.len() && a != b implies #[trigger] s1[a].0@
                            != #[trigger] s1[b].0@ by {
                            if a != i && b != i {
                                assert(s1[a] == s0[a] && s1[b] == s0[b]);
                            } else if a == i {
                                assert(s1[b] == s0[b]);
                                assert(s0[b].0@ != s0[a].0@);
                            } else {
                                assert(s1[a] == s0[a]);
                                assert(s0[a].0@ != s0[b].0@);
                            }
                        }
                    }
                    assert(entries_map(s1) =~= entries_map(s0).insert(k@, value)) by {
                        assert forall|q: Seq<char>| #[trigger] entries_map(s1).dom().contains(q) <==> entries_map(s0).insert(k@, value).dom().contains(q) by {
                            if q == k@ {
                                lemma_entries_map_at(s1, i as int);
                            } else if has_key(s0, q) {
                                let j = choose|j: int| 0 <= j < s0.len() && #[trigger] s0[j].0@ == q;
                                assert(s1[j] == s0[j]);
                            } else if has_key(s1, q) {
                                let j = choose|j: int| 0 <= j < s1.len() && #[trigger] s1[j].0@ == q;
                                assert(s1[j] == s0[j]);
                            }
                        }
                        assert forall|q: Seq<char>| #[trigger] entries_map(s1).dom().contains(q) implies entries_map(s1)[q]
                            == entries_map(s0).insert(k@, value)[q] by {
                            if q == k@ {
                                lemma_entries_map_at(s1, i as int);
                            } else {
                                let j = choose|j: int| 0 <= j < s1.len() && #[trigger] s1[j].0@ == q;
                                assert(s1[j] == s0[j]);
                                lemma_entries_map_at(s1, j);
                                lemma_entries_map_at(s0, j);
                            }
                        }
                    }
                }
                self.entries = entries;
                Some(previous)
            },
            None => {
                let ghost k = key@;
                entries.push((key, value));
                let ghost s1 = entries@;
                proof {
                    assert(keys_distinct(s1)) by {
                        assert forall|a: int, b: int|
                            0 <= a < s1.len() && 0 <= b < s1.len() && a != b implies #[trigger] s1[a].0@
                            != #[trigger] s1[b].0@ by {
                            if a < s0.len() && b < s0.len() {
                                assert(s1[a] == s0[a] && s1[b] == s0[b]);
                            } else if a < s0.len() {
                                assert(s1[a] == s0[a]);
                            } else {
                                assert(s1[b] == s0[b]);
                            }
                        }
                    }
                    lemma_entries_map_absent(s0, k);
                    let n = s0.len() as int;
                    assert(entries_map(s1) =~= entries_map(s0).insert(k, value)) by {
                        assert forall|q: Seq<char>| #[trigger] entries_map(s1).dom().contains(q) <==> entries_map(s0).insert(k, value).dom().contains(q) by {
                            if q == k {
                                lemma_entries_map_at(s1, n);
                            } else if has_key(s0, q) {
                                let j = choose|j: int| 0 <= j < s0.len() && #[trigger] s0[j].0@ == q;
                                assert(s1[j] == s0[j]);
                            } else if has_key(s1, q) {
                                let j = choose|j: int| 0 <= j < s1.len() && #[trigger] s1[j].0@ == q;
                                assert(j < n);
                                assert(s1[j] == s0[j]);
                            }
                        }
                        assert forall|q: Seq<char>| #[trigger] entries_map(s1).dom().contains(q) implies entries_map(s1)[q]
                            == entries_map(s0).insert(k, value)[q] by {
                            if q == k {
                                lemma_entries_map_at(s1, n);
                            } else {
                                let j = choose|j: int| 0 <= j < s1.len() && #[trigger] s1[j].0@ == q;
                                assert(j < n);
                                assert(s1[j] == s0[j]);
                                lemma_entries_map_at(s1, j);
                                lemma_entries_map_at(s0, j);
                            }
                        }
                    }
                }
                self.entries = entries;
                None
            },
        }
    }

    /// Takes the value under `key` out of the table.
    pub fn remove(&mut self, key: &String) -> (r: Option<V>)
        ensures
            final(self)@ == old(self)@.remove(key@),
            match r {
                Some(v) => old(self)@.dom().contains(key@) && v == old(self)@[key@],
                None => !old(self)@.dom().contains(key@),
            },
    {
        proof {
            use_type_invariant(&*self);
        }
        let ghost s0 = self.entries@;
        match self.find(key) {
            Some(i) => {
                proof {
                    lemma_entries_map_at(s0, i as int);
                }
                let mut entries: Vec<(String, V)> = Vec::new();
                std::mem::swap(&mut entries, &mut self.entries);
                let (_, v) = entries.remove(i);
                let ghost s1 = entries@;
                proof {
                    assert(s1 =~= s0.remove(i as int));
                    assert forall|j: int| 0 <= j < s1.len() implies #[trigger] s1[j] == (if j < i {
                        s0[j]
                    } else {
                        s0[j + 1]
                    }) by {}
                    assert(keys_distinct(s1)) by {
                        assert forall|a: int, b: int|
                            0 <= a < s1.len() && 0 <= b < s1.len() && a != b implies #[trigger] s1[a].0@
                            != #[trigger] s1[b].0@ by {
                            let a0 = if a < i { a } else { a + 1 };
                            let b0 = if b < i { b } else { b + 1 };
                            assert(s1[a] == s0[a0] && s1[b] == s0[b0]);
                        }
                    }
                    let k = key@;
                    assert(entries_map(s1) =~= entries_map(s0).remove(k)) by {
                        assert forall|q: Seq<char>| #[trigger] entries_map(s1).dom().contains(q) <==> entries_map(s0).remove(k).dom().contains(q) by {
                            if has_key(s1, q) {
                                let j = choose|j: int| 0 <= j < s1.len() && #[trigger] s1[j].0@ == q;
                                let j0 = if j < i { j } else { j + 1 };
                                assert(s1[j] == s0[j0]);
                                assert(s0[j0].0@ != s0[i as int].0@);
                            }
                            if q != k && has_key(s0, q) {
                                let j = choose|j: int| 0 <= j < s0.len() && #[trigger] s0[j].0@ == q;
                                assert(j != i);
                                let j1 = if j < i { j } else { j - 1 };
                                assert(s1[j1] == s0[j]);
                            }
                        }
                        assert forall|q: Seq<char>| #[trigger] entries_map(s1).dom().contains(q) implies entries_map(s1)[q]
                            == entries_map(s0).remove(k)[q] by {
                            let j = choose|j: int| 0 <= j < s1.len() && #[trigger] s1[j].0@ == q;
                            let j0 = if j < i { j } else { j + 1 };
                            assert(s1[j] == s0[j0]);
                            lemma_entries_map_at(s1, j);
                            lemma_entries_map_at(s0, j0);
                        }
                    }
                }
                self.entries = entries;
                Some(v)
            },
            None => {
                proof {
                    lemma_entries_map_absent(s0, key@);
                    assert(self@ =~= old(self)@.remove(key@));
                }
                None
            },
        }
    }

    /// Empties the table.
    pub fn clear(&mut self)
        ensures
            final(self)@ == Map::<Seq<char>, V>::empty(),
    {
        self.entries = Vec::new();
        assert(self@ =~= Map::<Seq<char>, V>::empty());
    }
}

} // verus!
