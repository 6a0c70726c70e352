//! A small table keyed by strings, each key at most once.
use vstd::prelude::*;

use crate::text::{chars_equal, chars_of};

verus! {

/// Entries keyed by strings; no key occurs twice.
#[derive(Debug)]
pub struct KeyedTable<V> {
    entries: Vec<(String, V)>,
}

/// Whether some entry of `e` has key `k`.
pub open spec fn has_key<V>(e: Seq<(String, V)>, k: Seq<char>) -> bool {
    exists|i: int| 0 <= i < e.len() && (#[trigger] e[i]).0@ == k
}

/// The position of the entry with key `k`.
pub open spec fn key_index<V>(e: Seq<(String, V)>, k: Seq<char>) -> int {
    choose|i: int| 0 <= i < e.len() && (#[trigger] e[i]).0@ == k
}

/// No two entries share a key.
pub open spec fn distinct_keys<V>(e: Seq<(String, V)>) -> bool {
    forall|i: int, j: int| 0 <= i < e.len() && 0 <= j < e.len() && i != j ==> (#[trigger] e[i]).0@ != (#[trigger] e[j]).0@
}

/// The map that the entries of `e` describe.
pub open spec fn entries_map<V: View>(e: Seq<(String, V)>) -> Map<Seq<char>, V::V> {
    Map::new(|k: Seq<char>| has_key(e, k), |k: Seq<char>| e[key_index(e, k)].1@)
}

proof fn lemma_index_unique<V>(e: Seq<(String, V)>, i: int)
    requires
        distinct_keys(e),
        0 <= i < e.len(),
    ensures
        has_key(e, e[i].0@),
        key_index(e, e[i].0@) == i,
{
    assert(has_key(e, e[i].0@));
}

impl<V: View> View for KeyedTable<V> {
    type V = Map<Seq<char>, V::V>;

    closed spec fn view(&self) -> Map<Seq<char>, V::V> {
        entries_map(self.entries@)
    }
}

impl<V: View> KeyedTable<V> {
    /// Keys are distinct.
    pub closed spec fn well_formed(&self) -> bool {
        distinct_keys(self.entries@)
    }

    /// An empty table.
    pub fn new() -> (t: Self)
        ensures
            t@ == Map::<Seq<char>, V::V>::empty(),
            t.well_formed(),
    {
        let t = KeyedTable { entries: Vec::new() };
        assert(t@ =~= Map::<Seq<char>, V::V>::empty());
        t
    }

    /// The position of the entry with this key.
    fn find(&self, key: &str) -> (r: Option<usize>)
        requires
            self.well_formed(),
        ensures
            match r {
                Some(i) => i < self.entries@.len() && self.entries@[i as int].0@ == key@,
                None => !has_key(self.entries@, key@),
            },
    {
        let k = chars_of(key);
        let mut i: usize = 0;
        while i < self.entries.len()
            invariant
                i <= self.entries@.len(),
                k@ == key@,
                forall|j: int| 0 <= j < i ==> (#[trigger] self.entries@[j]).0@ != key@,
            decreases self.entries@.len() - i,
        {
            let own = chars_of(self.entries[i].0.as_str());
            if chars_equal(own.as_slice(), k.as_slice()) {
                return Some(i);
            }
            i = i + 1;
        }
        None
    }

    /// The value stored under `key`.
    pub fn get(&self, key: &str) -> (r: Option<&V>)
        requires
            self.well_formed(),
        ensures
            match r {
                Some(v) => self@.contains_key(key@) && v@ == self@[key@],
                None => !self@.contains_key(key@),
            },
    {
        match self.find(key) {
            Some(i) => {
                proof {
                    lemma_index_unique(self.entries@, i as int);
                }
                Some(&self.entries[i].1)
            },
            None => None,
        }
    }

    /// Whether a value is stored under `key`.
    pub fn contains_key(&self, key: &str) -> (b: bool)
        requires
            self.well_formed(),
        ensures
            b == self@.contains_key(key@),
    {
        match self.find(key) {
            Some(i) => {
                proof {
                    lemma_index_unique(self.entries@, i as int);
                }
                true
            },
            None => false,
        }
    }

    /// Stores `value` under `key`, replacing what was there.
    pub fn insert(&mut self, key: String, value: V)
        requires
            old(self).well_formed(),
        ensures
            final(self).well_formed(),
            final(self)@ == old(self)@.insert(key@, value@),
    {
        let ghost old_e = self.entries@;
        let ghost k = key@;
        let ghost val = value@;
        match self.find(key.as_str()) {
            Some(i) => {
                self.entries.set(i, (key, value));
                proof {
                    let e = self.entries@;
                    assert(e == old_e.update(i as int, e[i as int]));
                    assert(distinct_keys(e)) by {
                        assert forall|a: int, b: int|
                            0 <= a < e.len() && 0 <= b < e.len() && a != b implies (#[trigger] e[a]).0@
                            != (#[trigger] e[b]).0@ by {
                            if a != i && b != i {
                                assert(e[a] == old_e[a] && e[b] == old_e[b]);
                            } else if a == i {
                                assert(e[b] == old_e[b]);
                            } else {
                                assert(e[a] == old_e[a]);
                            }
                        }
                    }
                    assert(entries_map(e) =~= entries_map(old_e).insert(k, val)) by {
                        assert forall|x: Seq<char>| #[trigger] has_key(e, x) <==> (has_key(old_e, x)
                            || x == k) by {
                            if has_key(e, x) {
                                let a = choose|a: int| 0 <= a < e.len() && (#[trigger] e[a]).0@ == x;
                                if a != i {
                                    assert(old_e[a] == e[a]);
                                }
                            }
                            if has_key(old_e, x) {
                                let a = choose|a: int|
                                    0 <= a < old_e.len() && (#[trigger] old_e[a]).0@ == x;
                                if a != i {
                                    assert(old_e[a] == e[a]);
                                } else {
                                    assert(e[i as int].0@ == x);
                                }
                            }
                            if x == k {
                                assert(e[i as int].0@ == x);
                            }
                        }
                        assert forall|x: Seq<char>| #[trigger]
                            entries_map(e).contains_key(x) implies entries_map(e)[x] == entries_map(
                            old_e,
                        ).insert(k, val)[x] by {
                            let a = choose|a: int| 0 <= a < e.len() && (#[trigger] e[a]).0@ == x;
                            lemma_index_unique(e, a);
                            if a != i {
                                assert(old_e[a] == e[a]);
                                lemma_index_unique(old_e, a);
                            }
                        }
                    }
                }
            },
            None => {
                self.entries.push((key, value));
                proof {
                    let e = self.entries@;
                    assert(e == old_e.push(e[e.len() - 1]));
                    assert(distinct_keys(e)) by {
                        assert forall|a: int, b: int|
                            0 <= a < e.len() && 0 <= b < e.len() && a != b implies (#[trigger] e[a]).0@
                            != (#[trigger] e[b]).0@ by {
                            if a == e.len() - 1 {
                                assert(e[b] == old_e[b]);
                            } else if b == e.len() - 1 {
                                assert(e[a] == old_e[a]);
                            } else {
                                assert(e[a] == old_e[a] && e[b] == old_e[b]);
                            }
                        }
                    }
                    assert(entries_map(e) =~= entries_map(old_e).insert(k, val)) by {
                        assert forall|x: Seq<char>| #[trigger] has_key(e, x) <==> (has_key(old_e, x)
                            || x == k) by {
                            if has_key(e, x) {
                                let a = choose|a: int| 0 <= a < e.len() && (#[trigger] e[a]).0@ == x;
                                if a < old_e.len() {
                                    assert(old_e[a] == e[a]);
                                }
                            }
                            if has_key(old_e, x) {
                                let a = choose|a: int|
                                    0 <= a < old_e.len() && (#[trigger] old_e[a]).0@ == x;
                                assert(old_e[a] == e[a]);
                            }
                            if x == k {
                                assert(e[e.len() - 1].0@ == x);
                            }
                        }
                        assert forall|x: Seq<char>| #[trigger]
                            entries_map(e).contains_key(x) implies entries_map(e)[x] == entries_map(
                            old_e,
                        ).insert(k, val)[x] by {
                            let a = choose|a: int| 0 <= a < e.len() && (#[trigger] e[a]).0@ == x;
                            lemma_index_unique(e, a);
                            if a < old_e.len() {
                                assert(old_e[a] == e[a]);
                                lemma_index_unique(old_e, a);
                            }
                        }
                    }
                }
            },
        }
    }

    /// Removes what is stored under `key`.
    pub fn remove(&mut self, key: &str)
        requires
            old(self).well_formed(),
        ensures
            final(self).well_formed(),
            final(self)@ == old(self)@.remove(key@),
    {
        let ghost old_e = self.entries@;
        match self.find(key) {
            Some(i) => {
                let _ = self.entries.remove(i);
                proof {
                    let e = self.entries@;
                    assert(e == old_e.remove(i as int));
                    assert forall|a: int| 0 <= a < e.len() implies #[trigger] e[a] == old_e[if a < i {
                        a
                    } else {
                        a + 1
                    }] by {}
                    assert(distinct_keys(e)) by {
                        assert forall|a: int, b: int|
                            0 <= a < e.len() && 0 <= b < e.len() && a != b implies (#[trigger] e[a]).0@
                            != (#[trigger] e[b]).0@ by {
                            let a2 = if a < i {
                                a
                            } else {
                                a + 1
                            };
                            let b2 = if b < i {
                                b
                            } else {
                                b + 1
                            };
                            assert(e[a] == old_e[a2] && e[b] == old_e[b2]);
                        }
                    }
                    assert(entries_map(e) =~= entries_map(old_e).remove(key@)) by {
                        assert forall|x: Seq<char>| #[trigger] has_key(e, x) <==> (has_key(old_e, x)
                            && x != key@) by {
                            if has_key(e, x) {
                                let a = choose|a: int| 0 <= a < e.len() && (#[trigger] e[a]).0@ == x;
                                let a2 = if a < i {
                                    a
                                } else {
                                    a + 1
                                };
                                assert(e[a] == old_e[a2]);
                            }
                            if has_key(old_e, x) && x != key@ {
                                let a = choose|a: int|
                                    0 <= a < old_e.len() && (#[trigger] old_e[a]).0@ == x;
                                if a < i {
                                    assert(e[a] == old_e[a]);
                                } else {
                                    assert(e[a - 1] == old_e[a]);
                                }
                            }
                        }
                        assert forall|x: Seq<char>| #[trigger]
                            entries_map(e).contains_key(x) implies entries_map(e)[x] == entries_map(
                            old_e,
                        ).remove(key@)[x] by {
                            let a = choose|a: int| 0 <= a < e.len() && (#[trigger] e[a]).0@ == x;
                            lemma_index_unique(e, a);
                            let a2 = if a < i {
                                a
                            } else {
                                a + 1
                            };
                            assert(e[a] == old_e[a2]);
                            lemma_index_unique(old_e, a2);
                        }
                    }
                }
            },
            None => {
                assert(entries_map(old_e) =~= entries_map(old_e).remove(key@));
            },
        }
    }
}

} // verus!
