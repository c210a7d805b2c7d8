//! Verified flat stores: a vector of keyed rows seen as a map, and a
//! vector of strings seen as a set. The graph model is built from these.
use vstd::prelude::*;
use crate::text::str_eq;

verus! {

/// One keyed row: a source DID, a record key, and a value.
pub struct Entry<V> {
    pub did: String,
    pub rkey: String,
    pub val: V,
}

/// The identity of a row.
pub open spec fn entry_key<V>(e: Entry<V>) -> (Seq<char>, Seq<char>) {
    (e.did@, e.rkey@)
}

/// The map a sequence of rows denotes; later rows win.
pub open spec fn rows_map<V: View>(s: Seq<Entry<V>>) -> Map<(Seq<char>, Seq<char>), V::V>
    decreases s.len(),
{
    if s.len() == 0 {
        Map::empty()
    } else {
        rows_map(s.drop_last()).insert(entry_key(s.last()), s.last().val@)
    }
}

/// Pairwise distinct keys.
pub open spec fn distinct_keys<V>(s: Seq<Entry<V>>) -> bool {
    forall|i: int, j: int|
        0 <= i < j < s.len() ==> entry_key(s[i]) != entry_key(s[j])
}

/// A key is in the denoted map exactly when some row carries it.
proof fn lemma_rows_map_contains<V: View>(s: Seq<Entry<V>>, k: (Seq<char>, Seq<char>))
    ensures
        rows_map(s).contains_key(k) <==> exists|i: int| 0 <= i < s.len() && entry_key(s[i]) == k,
    decreases s.len(),
{
    if s.len() > 0 {
        lemma_rows_map_contains(s.drop_last(), k);
        if entry_key(s.last()) == k {
            assert(entry_key(s[s.len() - 1]) == k);
        } else if rows_map(s.drop_last()).contains_key(k) {
            let i = choose|i: int|
                0 <= i < s.drop_last().len() && entry_key(s.drop_last()[i]) == k;
            assert(entry_key(s[i]) == k);
        } else if exists|i: int| 0 <= i < s.len() && entry_key(s[i]) == k {
            let i = choose|i: int| 0 <= i < s.len() && entry_key(s[i]) == k;
            assert(i < s.len() - 1);
            assert(entry_key(s.drop_last()[i]) == k);
        }
    }
}

/// Removing the row at `i` removes exactly its key from the denoted map.
proof fn lemma_rows_map_remove<V: View>(s: Seq<Entry<V>>, i: int)
    requires
        distinct_keys(s),
        0 <= i < s.len(),
    ensures
        rows_map(s.remove(i)) == rows_map(s).remove(entry_key(s[i])),
    decreases s.len(),
{
    let k = entry_key(s[i]);
    if i == s.len() - 1 {
        assert(s.remove(i) =~= s.drop_last());
        lemma_rows_map_contains(s.drop_last(), k);
        assert(!rows_map(s.drop_last()).contains_key(k));
        assert(rows_map(s.drop_last()).insert(k, s.last().val@).remove(k)
            =~= rows_map(s.drop_last()));
    } else {
        let dl = s.drop_last();
        assert(s.remove(i).len() == s.len() - 1);
        assert(s.remove(i).last() == s.last());
        assert(s.remove(i).drop_last() =~= dl.remove(i));
        lemma_rows_map_remove(dl, i);
        assert(entry_key(dl[i]) == k);
        let klast = entry_key(s.last());
        assert(klast != k);
        assert(rows_map(dl).remove(k).insert(klast, s.last().val@)
            =~= rows_map(dl).insert(klast, s.last().val@).remove(k));
        assert(rows_map(s.remove(i))
            =~= rows_map(s.remove(i).drop_last()).insert(klast, s.last().val@));
    }
}

/// With distinct keys, the row carrying a key gives the map's value at it.
proof fn lemma_rows_map_at<V: View>(s: Seq<Entry<V>>, i: int)
    requires
        distinct_keys(s),
        0 <= i < s.len(),
    ensures
        rows_map(s).contains_key(entry_key(s[i])),
        rows_map(s)[entry_key(s[i])] == s[i].val@,
    decreases s.len(),
{
    if i == s.len() - 1 {
        assert(s[i] == s.last());
    } else {
        lemma_rows_map_at(s.drop_last(), i);
        assert(s.drop_last()[i] == s[i]);
        assert(entry_key(s.last()) != entry_key(s[i]));
    }
}

/// A vector of rows with pairwise distinct keys, seen as a map from
/// `(did, rkey)` to the row's value.
pub struct KeyedVec<V> {
    entries: Vec<Entry<V>>,
}

impl<V: View> KeyedVec<V> {
    /// The rows carry pairwise distinct keys.
    pub closed spec fn wf(&self) -> bool {
        distinct_keys(self.entries@)
    }

    /// The map this store denotes.
    pub closed spec fn view(&self) -> Map<(Seq<char>, Seq<char>), V::V> {
        rows_map(self.entries@)
    }

    /// An empty store.
    pub fn new() -> (r: KeyedVec<V>)
        ensures
            r.wf(),
            r@ == Map::<(Seq<char>, Seq<char>), V::V>::empty(),
    {
        KeyedVec { entries: Vec::new() }
    }

    fn find(&self, did: &str, rkey: &str) -> (r: Option<usize>)
        ensures
            match r {
                Some(i) => i < self.entries@.len()
                    && entry_key(self.entries@[i as int]) == (did@, rkey@),
                None => forall|j: int|
                    0 <= j < self.entries@.len()
                        ==> entry_key(self.entries@[j]) != (did@, rkey@),
            },
    {
        let mut i: usize = 0;
        while i < self.entries.len()
            invariant
                i <= self.entries@.len(),
                forall|j: int|
                    0 <= j < i ==> entry_key(self.entries@[j]) != (did@, rkey@),
            decreases self.entries@.len() - i,
        {
            let e = &self.entries[i];
            if str_eq(e.did.as_str(), did) && str_eq(e.rkey.as_str(), rkey) {
                return Some(i);
            }
            i += 1;
        }
        None
    }

    /// Whether a row with this key is present.
    pub fn contains(&self, did: &str, rkey: &str) -> (r: bool)
        ensures
            r == self@.contains_key((did@, rkey@)),
    {
        let found = self.find(did, rkey);
        proof {
            lemma_rows_map_contains(self.entries@, (did@, rkey@));
        }
        match found {
            Some(_) => true,
            None => false,
        }
    }

    /// Look up the value stored at a key.
    pub fn get(&self, did: &str, rkey: &str) -> (r: Option<&V>)
        requires
            self.wf(),
        ensures
            match r {
                Some(v) => self@.contains_key((did@, rkey@)) && v@ == self@[(did@, rkey@)],
                None => !self@.contains_key((did@, rkey@)),
            },
    {
        match self.find(did, rkey) {
            Some(i) => {
                proof {
                    lemma_rows_map_at(self.entries@, i as int);
                }
                Some(&self.entries[i].val)
            },
            None => {
                proof {
                    lemma_rows_map_contains(self.entries@, (did@, rkey@));
                }
                None
            },
        }
    }

    /// Insert a row, replacing any row with the same key.
    pub fn upsert(&mut self, did: String, rkey: String, val: V)
        requires
            old(self).wf(),
        ensures
            final(self).wf(),
            final(self)@ == old(self)@.insert((did@, rkey@), val@),
    {
        let ghost k = (did@, rkey@);
        match self.find(did.as_str(), rkey.as_str()) {
            Some(i) => {
                proof {
                    lemma_rows_map_remove(self.entries@, i as int);
                }
                let ghost before = self.entries@;
                self.entries.remove(i);
                proof {
                    assert(forall|a: int, b: int|
                        0 <= a < b < self.entries@.len()
                            ==> entry_key(self.entries@[a]) != entry_key(self.entries@[b]))
                        by {
                        assert(forall|a: int|
                            0 <= a < self.entries@.len() ==> (self.entries@[a] == before[a]
                                || self.entries@[a] == before[a + 1]));
                    }
                    lemma_rows_map_contains(self.entries@, k);
                }
                self.entries.push(Entry { did, rkey, val });
                proof {
                    assert(self.entries@.drop_last() =~= before.remove(i as int));
                    assert(rows_map(self.entries@)
                        =~= rows_map(before).remove(k).insert(k, val@));
                    assert(rows_map(before).remove(k).insert(k, val@)
                        =~= rows_map(before).insert(k, val@));
                }
            },
            None => {
                let ghost before = self.entries@;
                self.entries.push(Entry { did, rkey, val });
                proof {
                    assert(self.entries@.drop_last() =~= before);
                    assert(forall|j: int|
                        0 <= j < before.len() ==> entry_key(before[j]) != k);
                }
            },
        }
    }

    /// Remove the row with this key, if any.
    pub fn remove(&mut self, did: &str, rkey: &str)
        requires
            old(self).wf(),
        ensures
            final(self).wf(),
            final(self)@ == old(self)@.remove((did@, rkey@)),
    {
        let ghost k = (did@, rkey@);
        match self.find(did, rkey) {
            Some(i) => {
                proof {
                    lemma_rows_map_remove(self.entries@, i as int);
                }
                let ghost before = self.entries@;
                self.entries.remove(i);
                proof {
                    assert(forall|a: int, b: int|
                        0 <= a < b < self.entries@.len()
                            ==> entry_key(self.entries@[a]) != entry_key(self.entries@[b]))
                        by {
                        assert(forall|a: int|
                            0 <= a < self.entries@.len() ==> (self.entries@[a] == before[a]
                                || self.entries@[a] == before[a + 1]));
                    }
                }
            },
            None => {
                proof {
                    lemma_rows_map_contains(self.entries@, k);
                    assert(old(self)@.remove(k) =~= old(self)@);
                }
            },
        }
    }
}

/// The set a sequence of strings denotes.
pub open spec fn strs_set(s: Seq<String>) -> Set<Seq<char>>
    decreases s.len(),
{
    if s.len() == 0 {
        Set::empty()
    } else {
        strs_set(s.drop_last()).insert(s.last()@)
    }
}

/// A string is in the denoted set exactly when some element views to it.
proof fn lemma_strs_set_contains(s: Seq<String>, x: Seq<char>)
    ensures
        strs_set(s).contains(x) <==> exists|i: int| 0 <= i < s.len() && s[i]@ == x,
    decreases s.len(),
{
    if s.len() > 0 {
        lemma_strs_set_contains(s.drop_last(), x);
        if s.last()@ == x {
            assert(s[s.len() - 1]@ == x);
        } else if strs_set(s.drop_last()).contains(x) {
            let i = choose|i: int| 0 <= i < s.drop_last().len() && s.drop_last()[i]@ == x;
            assert(s[i]@ == x);
        } else if exists|i: int| 0 <= i < s.len() && s[i]@ == x {
            let i = choose|i: int| 0 <= i < s.len() && s[i]@ == x;
            assert(i < s.len() - 1);
            assert(s.drop_last()[i]@ == x);
        }
    }
}

/// A vector of strings seen as the set of their character sequences.
pub struct StrSet {
    items: Vec<String>,
}

impl StrSet {
    /// The set this store denotes.
    pub closed spec fn view(&self) -> Set<Seq<char>> {
        strs_set(self.items@)
    }

    /// An empty set.
    pub fn new() -> (r: StrSet)
        ensures
            r@ == Set::<Seq<char>>::empty(),
    {
        StrSet { items: Vec::new() }
    }

    /// Whether this string is in the set.
    pub fn contains(&self, x: &str) -> (r: bool)
        ensures
            r == self@.contains(x@),
    {
        let mut i: usize = 0;
        while i < self.items.len()
            invariant
                i <= self.items@.len(),
                forall|j: int| 0 <= j < i ==> self.items@[j]@ != x@,
            decreases self.items@.len() - i,
        {
            if str_eq(self.items[i].as_str(), x) {
                proof {
                    lemma_strs_set_contains(self.items@, x@);
                    assert(self.items@[i as int]@ == x@);
                }
                return true;
            }
            i += 1;
        }
        proof {
            lemma_strs_set_contains(self.items@, x@);
        }
        false
    }

    /// Insert a string; inserting a member again changes nothing.
    pub fn insert(&mut self, x: String)
        ensures
            final(self)@ == old(self)@.insert(x@),
    {
        if self.contains(x.as_str()) {
            proof {
                assert(old(self)@.insert(x@) =~= old(self)@);
            }
        } else {
            let ghost before = self.items@;
            self.items.push(x);
            proof {
                assert(self.items@.drop_last() =~= before);
            }
        }
    }
}

} // verus!
