//! A lookup table from string keys to values, the backing structure
//! of the credential store.
//!
//! The table is a vector of key/value entries with pairwise distinct
//! keys; its view is the `Map` from each key's character sequence to
//! the value's view. All store contracts are stated over that map.

use vstd::prelude::*;

verus! {

use crate::strutil::str_eq;

pub struct Table<V> {
    entries: Vec<(String, V)>,
}

impl<V: View> View for Table<V> {
    type V = Map<Seq<char>, V::V>;

    closed spec fn view(&self) -> Map<Seq<char>, V::V> {
        Table::<V>::map_of(self.entries@)
    }
}

impl<V: View> Table<V> {
    /// The map denoted by a sequence of entries; a later entry for a
    /// key would shadow an earlier one, but well-formed tables hold
    /// each key at most once.
    spec fn map_of(s: Seq<(String, V)>) -> Map<Seq<char>, V::V>
        decreases s.len(),
    {
        if s.len() == 0 {
            Map::empty()
        } else {
            Self::map_of(s.drop_last()).insert(s.last().0@, s.last().1@)
        }
    }

    spec fn unique_keys(s: Seq<(String, V)>) -> bool {
        forall|i: int, j: int| 0 <= i < j < s.len() ==> s[i].0@ != s[j].0@
    }

    /// Distinct entries hold distinct keys.
    pub closed spec fn wf(self) -> bool {
        Self::unique_keys(self.entries@)
    }

    proof fn lemma_unique_drop_last(s: Seq<(String, V)>)
        requires
            Self::unique_keys(s),
            s.len() > 0,
        ensures
            Self::unique_keys(s.drop_last()),
    {
        assert forall|i: int, j: int|
            0 <= i < j < s.drop_last().len() implies s.drop_last()[i].0@
            != s.drop_last()[j].0@ by {
            assert(s.drop_last()[i] == s[i]);
            assert(s.drop_last()[j] == s[j]);
        }
    }

    proof fn lemma_contains(s: Seq<(String, V)>)
        ensures
            forall|k: Seq<char>|
                Self::map_of(s).contains_key(k) <==> exists|i: int|
                    0 <= i < s.len() && s[i].0@ == k,
        decreases s.len(),
    {
        if s.len() > 0 {
            Self::lemma_contains(s.drop_last());
            assert forall|k: Seq<char>| Self::map_of(s).contains_key(k) implies exists|i: int|
                0 <= i < s.len() && s[i].0@ == k by {
                if k == s.last().0@ {
                    assert(s[s.len() - 1].0@ == k);
                } else {
                    assert(Self::map_of(s.drop_last()).contains_key(k));
                    let i = choose|i: int|
                        0 <= i < s.drop_last().len() && s.drop_last()[i].0@ == k;
                    assert(s.drop_last()[i] == s[i]);
                }
            }
            assert forall|k: Seq<char>| (exists|i: int|
                0 <= i < s.len() && s[i].0@ == k) implies Self::map_of(s).contains_key(k) by {
                let i = choose|i: int| 0 <= i < s.len() && s[i].0@ == k;
                if i < s.len() - 1 {
                    assert(s.drop_last()[i] == s[i]);
                    assert(Self::map_of(s.drop_last()).contains_key(k));
                }
            }
        }
    }

    proof fn lemma_index(s: Seq<(String, V)>, i: int)
        requires
            Self::unique_keys(s),
            0 <= i < s.len(),
        ensures
            Self::map_of(s).contains_key(s[i].0@),
            Self::map_of(s)[s[i].0@] == s[i].1@,
        decreases s.len(),
    {
        if i < s.len() - 1 {
            Self::lemma_unique_drop_last(s);
            Self::lemma_index(s.drop_last(), i);
            assert(s.drop_last()[i] == s[i]);
            assert(s[i].0@ != s[s.len() - 1].0@);
        }
    }

    proof fn lemma_remove(s: Seq<(String, V)>, i: int)
        requires
            Self::unique_keys(s),
            0 <= i < s.len(),
        ensures
            Self::map_of(s.remove(i)) =~= Self::map_of(s).remove(s[i].0@),
            Self::unique_keys(s.remove(i)),
        decreases s.len(),
    {
        Self::lemma_unique_drop_last(s);
        Self::lemma_contains(s.drop_last());
        assert forall|a: int, b: int|
            0 <= a < b < s.remove(i).len() implies s.remove(i)[a].0@ != s.remove(i)[b].0@ by {
            assert(s.remove(i)[a] == (if a < i { s[a] } else { s[a + 1] }));
            assert(s.remove(i)[b] == (if b < i { s[b] } else { s[b + 1] }));
        }
        if i == s.len() - 1 {
            assert(s.remove(i) =~= s.drop_last());
            assert(!Self::map_of(s.drop_last()).contains_key(s[i].0@));
            assert(Self::map_of(s.drop_last()) =~= Self::map_of(s.drop_last()).insert(
                s.last().0@,
                s.last().1@,
            ).remove(s[i].0@));
        } else {
            Self::lemma_remove(s.drop_last(), i);
            assert(s.remove(i).drop_last() =~= s.drop_last().remove(i));
            assert(s.remove(i).last() == s.last());
            assert(s[i].0@ != s[s.len() - 1].0@);
            assert(s.drop_last()[i] == s[i]);
            assert(Self::map_of(s.remove(i)) == Self::map_of(s.drop_last().remove(i)).insert(
                s.last().0@,
                s.last().1@,
            ));
        }
    }

    proof fn lemma_update(s: Seq<(String, V)>, i: int, e: (String, V))
        requires
            Self::unique_keys(s),
            0 <= i < s.len(),
            e.0@ == s[i].0@,
        ensures
            Self::map_of(s.update(i, e)) =~= Self::map_of(s).insert(e.0@, e.1@),
            Self::unique_keys(s.update(i, e)),
        decreases s.len(),
    {
        Self::lemma_unique_drop_last(s);
        assert forall|a: int, b: int|
            0 <= a < b < s.update(i, e).len() implies s.update(i, e)[a].0@ != s.update(
            i,
            e,
        )[b].0@ by {
            assert(s.update(i, e)[a].0@ == s[a].0@);
            assert(s.update(i, e)[b].0@ == s[b].0@);
        }
        if i == s.len() - 1 {
            assert(s.update(i, e).drop_last() =~= s.drop_last());
            assert(s.update(i, e).last() == e);
        } else {
            Self::lemma_update(s.drop_last(), i, e);
            assert(s.update(i, e).drop_last() =~= s.drop_last().update(i, e));
            assert(s.update(i, e).last() == s.last());
            assert(s[i].0@ != s[s.len() - 1].0@);
            assert(s.drop_last()[i] == s[i]);
            assert(Self::map_of(s.update(i, e)) == Self::map_of(s.drop_last().update(i, e)).insert(
                s.last().0@,
                s.last().1@,
            ));
        }
    }

    proof fn lemma_dom_len(s: Seq<(String, V)>)
        requires
            Self::unique_keys(s),
        ensures
            Self::map_of(s).dom().finite(),
            Self::map_of(s).dom().len() == s.len(),
        decreases s.len(),
    {
        if s.len() > 0 {
            Self::lemma_unique_drop_last(s);
            Self::lemma_dom_len(s.drop_last());
            Self::lemma_contains(s.drop_last());
            assert(!Self::map_of(s.drop_last()).contains_key(s.last().0@));
            assert(Self::map_of(s).dom() =~= Self::map_of(s.drop_last()).dom().insert(
                s.last().0@,
            ));
        }
    }

    /// An empty table.
    pub fn new() -> (t: Self)
        ensures
            t.wf(),
            t@ == Map::<Seq<char>, V::V>::empty(),
    {
        Table { entries: Vec::new() }
    }

    fn find_index(&self, k: &str) -> (r: Option<usize>)
        requires
            self.wf(),
        ensures
            match r {
                Some(i) => i < self.entries@.len() && self.entries@[i as int].0@ == k@
                    && self@.contains_key(k@) && self@[k@] == self.entries@[i as int].1@,
                None => !self@.contains_key(k@),
            },
    {
        let n: usize = self.entries.len();
        let mut i: usize = 0;
        while i < n
            invariant
                self.wf(),
                n == self.entries@.len(),
                i <= n,
                forall|j: int| 0 <= j < i ==> self.entries@[j].0@ != k@,
            decreases n - i,
        {
            if str_eq(self.entries[i].0.as_str(), k) {
                proof {
                    Self::lemma_index(self.entries@, i as int);
                }
                return Some(i);
            }
            i = i + 1;
        }
        proof {
            Self::lemma_contains(self.entries@);
        }
        None
    }

    /// Whether the table holds the key.
    pub fn contains(&self, k: &str) -> (r: bool)
        requires
            self.wf(),
        ensures
            r == self@.contains_key(k@),
    {
        match self.find_index(k) {
            Some(_) => true,
            None => false,
        }
    }

    /// The value stored under a key, if any.
    pub fn get(&self, k: &str) -> (r: Option<&V>)
        requires
            self.wf(),
        ensures
            match r {
                Some(v) => self@.contains_key(k@) && v@ == self@[k@],
                None => !self@.contains_key(k@),
            },
    {
        match self.find_index(k) {
            Some(i) => Some(&self.entries[i].1),
            None => None,
        }
    }

    /// Inserts a value under a key that is not yet present.
    pub fn insert_fresh(&mut self, k: String, v: V)
        requires
            old(self).wf(),
            !old(self)@.contains_key(k@),
        ensures
            final(self).wf(),
            final(self)@ == old(self)@.insert(k@, v@),
    {
        proof {
            Self::lemma_contains(self.entries@);
        }
        let ghost s = self.entries@;
        let ghost e = (k, v);
        self.entries.push((k, v));
        proof {
            assert(self.entries@.drop_last() =~= s);
            assert(self.entries@ == s.push(e));
            assert forall|a: int, b: int|
                0 <= a < b < self.entries@.len() implies self.entries@[a].0@
                != self.entries@[b].0@ by {
                if b < self.entries@.len() - 1 {
                    assert(self.entries@[a] == s[a]);
                    assert(self.entries@[b] == s[b]);
                } else {
                    assert(self.entries@[b] == e);
                    assert(self.entries@[a] == s[a]);
                }
            }
            assert(self@ =~= old(self)@.insert(e.0@, e.1@));
        }
    }

    /// Removes a key, handing back the value that was stored under it.
    pub fn remove(&mut self, k: &str) -> (r: Option<V>)
        requires
            old(self).wf(),
        ensures
            final(self).wf(),
            match r {
                Some(v) => old(self)@.contains_key(k@) && v@ == old(self)@[k@] && final(self)@
                    == old(self)@.remove(k@),
                None => !old(self)@.contains_key(k@) && *final(self) == *old(self),
            },
    {
        match self.find_index(k) {
            Some(i) => {
                proof {
                    Self::lemma_remove(self.entries@, i as int);
                }
                let e: (String, V) = self.entries.remove(i);
                Some(e.1)
            },
            None => None,
        }
    }

    /// Replaces the value stored under a key that is present.
    pub fn replace(&mut self, k: &str, v: V)
        requires
            old(self).wf(),
            old(self)@.contains_key(k@),
        ensures
            final(self).wf(),
            final(self)@ == old(self)@.insert(k@, v@),
    {
        match self.find_index(k) {
            Some(i) => {
                let nk: String = k.to_owned();
                let ghost e = (nk, v);
                proof {
                    Self::lemma_update(self.entries@, i as int, e);
                }
                self.entries[i] = (nk, v);
                proof {
                    assert(self@ =~= old(self)@.insert(k@, v@));
                }
            },
            None => {
                proof {
                    assert(false);
                }
            },
        }
    }

    /// The number of keys stored.
    pub fn len(&self) -> (n: usize)
        requires
            self.wf(),
        ensures
            n == self@.dom().len(),
            self@.dom().finite(),
    {
        proof {
            Self::lemma_dom_len(self.entries@);
        }
        self.entries.len()
    }
}

} // verus!
