//! An ordered association from string keys to values.
//!
//! Backed by a vector of pairs with unique keys: lookups see a map, exports
//! see the entries in insertion order.

use vstd::prelude::*;

verus! {

/// The map that an entry list denotes; later entries would win, but a
/// well-formed list never repeats a key.
pub open spec fn assoc_seq_map<T>(s: Seq<(String, T)>) -> Map<Seq<char>, T>
    decreases s.len(),
{
    if s.len() == 0 {
        Map::empty()
    } else {
        assoc_seq_map(s.drop_last()).insert(s.last().0@, s.last().1)
    }
}

/// A key is in the map exactly when an entry bears it.
pub proof fn lemma_assoc_seq_map_dom<T>(s: Seq<(String, T)>)
    ensures
        forall|k: Seq<char>|
            #[trigger] assoc_seq_map(s).contains_key(k) <==> exists|i: int|
                0 <= i < s.len() && s[i].0@ == k,
    decreases s.len(),
{
    if s.len() > 0 {
        lemma_assoc_seq_map_dom(s.drop_last());
        assert forall|k: Seq<char>| #[trigger] assoc_seq_map(s).contains_key(k) implies exists|
            i: int,
        | 0 <= i < s.len() && s[i].0@ == k by {
            if s.last().0@ == k {
                assert(s[s.len() - 1].0@ == k);
            } else {
                assert(assoc_seq_map(s.drop_last()).contains_key(k));
                let i = choose|i: int| 0 <= i < s.drop_last().len() && s.drop_last()[i].0@ == k;
                assert(s.drop_last()[i] == s[i]);
                assert(s[i].0@ == k);
            }
        }
        assert forall|k: Seq<char>|
            (exists|i: int| 0 <= i < s.len() && s[i].0@ == k) implies #[trigger] assoc_seq_map(
            s,
        ).contains_key(k) by {
            let i = choose|i: int| 0 <= i < s.len() && s[i].0@ == k;
            if i < s.len() - 1 {
                assert(s.drop_last()[i] == s[i]);
                assert(s.drop_last()[i].0@ == k);
                assert(assoc_seq_map(s.drop_last()).contains_key(k));
            } else {
                assert(s.last().0@ == k);
            }
        }
    }
}

/// In a list without repeated keys, each entry holds its key's map value.
pub proof fn lemma_assoc_seq_map_at<T>(s: Seq<(String, T)>, i: int)
    requires
        forall|p: int, q: int| 0 <= p < q < s.len() ==> s[p].0@ != s[q].0@,
        0 <= i < s.len(),
    ensures
        assoc_seq_map(s).contains_key(s[i].0@),
        assoc_seq_map(s)[s[i].0@] == s[i].1,
    decreases s.len(),
{
    lemma_assoc_seq_map_dom(s);
    if i == s.len() - 1 {
    } else {
        lemma_assoc_seq_map_at(s.drop_last(), i);
        assert(s.drop_last()[i] == s[i]);
        assert(s.last().0@ != s[i].0@);
    }
}

/// An ordered string-keyed association with unique keys.
pub struct KvVec<T> {
    pub v: Vec<(String, T)>,
}

impl<T> KvVec<T> {
    /// No key occurs twice.
    pub open spec fn wf(&self) -> bool {
        forall|p: int, q: int| 0 <= p < q < self.v@.len() ==> self.v@[p].0@ != self.v@[q].0@
    }

    /// The association as a map from key text to value.
    pub open spec fn map_view(&self) -> Map<Seq<char>, T> {
        assoc_seq_map(self.v@)
    }

    pub fn new() -> (r: Self)
        ensures
            r.wf(),
            r.v@ == Seq::<(String, T)>::empty(),
            r.map_view() == Map::<Seq<char>, T>::empty(),
    {
        KvVec { v: Vec::new() }
    }

    pub fn len(&self) -> (n: usize)
        ensures
            n == self.v@.len(),
    {
        self.v.len()
    }

    /// The index of the entry bearing `key`, if one does.
    pub fn index_of(&self, key: &String) -> (r: Option<usize>)
        requires
            self.wf(),
        ensures
            match r {
                Some(i) => i < self.v@.len() && self.v@[i as int].0@ == key@
                    && self.map_view().contains_key(key@) && self.map_view()[key@]
                    == self.v@[i as int].1,
                None => !self.map_view().contains_key(key@),
            },
    {
        proof {
            lemma_assoc_seq_map_dom(self.v@);
        }
        let mut i: usize = 0;
        while i < self.v.len()
            invariant
                self.wf(),
                i <= self.v@.len(),
                forall|k: int| 0 <= k < i ==> self.v@[k].0@ != key@,
            decreases self.v@.len() - i,
        {
            if self.v[i].0 == *key {
                proof {
                    lemma_assoc_seq_map_at(self.v@, i as int);
                }
                return Some(i);
            }
            i = i + 1;
        }
        proof {
            lemma_assoc_seq_map_dom(self.v@);
        }
        None
    }

    /// The value under `key`, if the key is present.
    pub fn get<'a>(&'a self, key: &String) -> (r: Option<&'a T>)
        requires
            self.wf(),
        ensures
            match r {
                Some(t) => self.map_view().contains_key(key@) && *t == self.map_view()[key@],
                None => !self.map_view().contains_key(key@),
            },
            r is Some <==> self.map_view().contains_key(key@),
    {
        match self.index_of(key) {
            Some(i) => Some(&self.v[i].1),
            None => None,
        }
    }

    /// Binds `key` to `value`: a fresh entry at the end, or in place where
    /// the key is already bound.
    pub fn insert(&mut self, key: String, value: T)
        requires
            old(self).wf(),
        ensures
            final(self).wf(),
            final(self).map_view() == old(self).map_view().insert(key@, value),
            !old(self).map_view().contains_key(key@) ==> final(self).v@ == old(self).v@.push(
                (key, value),
            ),
            old(self).map_view().contains_key(key@) ==> exists|i: int|
                0 <= i < old(self).v@.len() && old(self).v@[i].0@ == key@ && final(self).v@ == old(
                    self,
                ).v@.update(i, (key, value)),
    {
        let idx = self.index_of(&key);
        match idx {
            Some(i) => {
                proof {
                    lemma_assoc_update(self.v@, i as int, (key, value));
                }
                self.v.push((key, value));
                let _ = self.v.swap_remove(i);
                proof {
                    assert(self.v@ =~= old(self).v@.update(i as int, (key, value)));
                }
            },
            None => {
                self.v.push((key, value));
                proof {
                    assert(self.v@.drop_last() =~= old(self).v@);
                    lemma_assoc_seq_map_dom(old(self).v@);
                }
            },
        }
    }

    /// Replaces the value of the entry at `i`, keeping its key.
    pub fn set_value_at(&mut self, i: usize, value: T)
        requires
            old(self).wf(),
            i < old(self).v@.len(),
        ensures
            final(self).wf(),
            final(self).v@.len() == old(self).v@.len(),
            final(self).v@[i as int].0@ == old(self).v@[i as int].0@,
            final(self).v@[i as int].1 == value,
            forall|j: int| 0 <= j < old(self).v@.len() && j != i ==> final(self).v@[j] == old(
                self,
            ).v@[j],
            final(self).map_view() == old(self).map_view().insert(
                old(self).v@[i as int].0@,
                value,
            ),
    {
        let key = self.v[i].0.clone();
        proof {
            lemma_assoc_update(self.v@, i as int, (key, value));
        }
        self.v.push((key, value));
        let _ = self.v.swap_remove(i);
        proof {
            assert(self.v@ =~= old(self).v@.update(i as int, (key, value)));
        }
    }

    /// Unbinds `key`; absent keys are left alone.
    pub fn remove(&mut self, key: &String)
        requires
            old(self).wf(),
        ensures
            final(self).wf(),
            final(self).map_view() == old(self).map_view().remove(key@),
            !old(self).map_view().contains_key(key@) ==> final(self).v@ == old(self).v@,
            old(self).map_view().contains_key(key@) ==> exists|i: int|
                0 <= i < old(self).v@.len() && old(self).v@[i].0@ == key@ && final(self).v@ == old(
                    self,
                ).v@.remove(i),
    {
        let idx = self.index_of(key);
        match idx {
            Some(i) => {
                proof {
                    lemma_assoc_remove(self.v@, i as int);
                }
                let _ = self.v.remove(i);
                proof {
                    assert(self.v@ =~= old(self).v@.remove(i as int));
                }
            },
            None => {
                proof {
                    lemma_assoc_seq_map_dom(self.v@);
                    assert(self.map_view() =~= self.map_view().remove(key@));
                }
            },
        }
    }
}

/// Updating the entry at a key's index rebinds that key and nothing else.
proof fn lemma_assoc_update<T>(s: Seq<(String, T)>, i: int, e: (String, T))
    requires
        forall|p: int, q: int| 0 <= p < q < s.len() ==> s[p].0@ != s[q].0@,
        0 <= i < s.len(),
        s[i].0@ == e.0@,
    ensures
        forall|p: int, q: int|
            0 <= p < q < s.update(i, e).len() ==> s.update(i, e)[p].0@ != s.update(i, e)[q].0@,
        assoc_seq_map(s.update(i, e)) == assoc_seq_map(s).insert(e.0@, e.1),
    decreases s.len(),
{
    if i == s.len() - 1 {
        assert(s.update(i, e).drop_last() =~= s.drop_last());
        assert(assoc_seq_map(s.update(i, e)) =~= assoc_seq_map(s).insert(e.0@, e.1));
    } else {
        lemma_assoc_update(s.drop_last(), i, e);
        assert(s.update(i, e).drop_last() =~= s.drop_last().update(i, e));
        assert(s.update(i, e).last() == s.last());
        assert(s.last().0@ != e.0@);
        assert(assoc_seq_map(s.update(i, e)) =~= assoc_seq_map(s).insert(e.0@, e.1));
    }
}

/// Removing the entry at a key's index unbinds that key and nothing else.
proof fn lemma_assoc_remove<T>(s: Seq<(String, T)>, i: int)
    requires
        forall|p: int, q: int| 0 <= p < q < s.len() ==> s[p].0@ != s[q].0@,
        0 <= i < s.len(),
    ensures
        forall|p: int, q: int|
            0 <= p < q < s.remove(i).len() ==> s.remove(i)[p].0@ != s.remove(i)[q].0@,
        assoc_seq_map(s.remove(i)) == assoc_seq_map(s).remove(s[i].0@),
    decreases s.len(),
{
    lemma_assoc_seq_map_dom(s.drop_last());
    if i == s.len() - 1 {
        assert(s.remove(i) =~= s.drop_last());
        assert(!assoc_seq_map(s.drop_last()).contains_key(s[i].0@));
        assert(assoc_seq_map(s.remove(i)) =~= assoc_seq_map(s).remove(s[i].0@));
    } else {
        lemma_assoc_remove(s.drop_last(), i);
        assert(s.remove(i).drop_last() =~= s.drop_last().remove(i));
        assert(s.remove(i).last() == s.last());
        assert(s.last().0@ != s[i].0@);
        assert(assoc_seq_map(s.remove(i)) =~= assoc_seq_map(s).remove(s[i].0@));
    }
}

} // verus!
