//! A keyed store over vectors, with a map as its view.

use vstd::prelude::*;

verus! {

/// A key that can be compared at run time, agreeing with equality in
/// specifications.
pub trait Key: Copy {
    fn same_key(&self, other: &Self) -> (b: bool)
        ensures
            b == (*self == *other),
    ;
}

/// A small keyed store: at most one value per key.
///
/// Its view is the map from keys to values.
#[derive(Clone, Debug, PartialEq, Eq)]
pub struct Table<K, V> {
    keys: Vec<K>,
    values: Vec<V>,
}

impl<K: Key, V> Table<K, V> {
    /// The keys in storage order.
    pub closed spec fn key_seq(&self) -> Seq<K> {
        self.keys@
    }

    /// Each key is stored once, beside its value.
    pub closed spec fn wf(&self) -> bool {
        &&& self.keys@.len() == self.values@.len()
        &&& self.keys@.no_duplicates()
    }

    /// The map from each stored key to its value.
    pub closed spec fn view(&self) -> Map<K, V> {
        Map::new(
            |k: K| self.keys@.contains(k),
            |k: K| self.values@[self.keys@.index_of(k)],
        )
    }

    /// The stored keys are exactly the keys of the view, each listed once.
    pub proof fn lemma_key_seq(&self)
        requires
            self.wf(),
        ensures
            self.key_seq().no_duplicates(),
            forall|k: K| self.key_seq().contains(k) <==> #[trigger] self@.contains_key(k),
    {
    }

    /// An empty table.
    pub fn new() -> (t: Self)
        ensures
            t.wf(),
            t@ == Map::<K, V>::empty(),
    {
        let t = Table { keys: Vec::new(), values: Vec::new() };
        t
    }

    /// How many keys are stored.
    pub fn len(&self) -> (n: usize)
        requires
            self.wf(),
        ensures
            n == self.key_seq().len(),
    {
        self.keys.len()
    }

    /// The value in storage position `i`.
    pub fn value_at(&self, i: usize) -> (v: &V)
        requires
            self.wf(),
            i < self.key_seq().len(),
        ensures
            *v == self@[self.key_seq()[i as int]],
    {
        &self.values[i]
    }

    fn find(&self, k: &K) -> (r: Option<usize>)
        requires
            self.wf(),
        ensures
            match r {
                Some(i) => i < self.keys@.len() && self.keys@[i as int] == *k,
                None => !self.keys@.contains(*k),
            },
    {
        let mut i: usize = 0;
        while i < self.keys.len()
            invariant
                i <= self.keys@.len(),
                forall|j: int| 0 <= j < i ==> self.keys@[j] != *k,
            decreases self.keys@.len() - i,
        {
            if self.keys[i].same_key(k) {
                return Some(i);
            }
            i += 1;
        }
        None
    }

    /// The value stored under `k`, if any.
    pub fn get(&self, k: &K) -> (r: Option<&V>)
        requires
            self.wf(),
        ensures
            match r {
                Some(v) => self@.contains_key(*k) && *v == self@[*k],
                None => !self@.contains_key(*k),
            },
    {
        match self.find(k) {
            Some(i) => Some(&self.values[i]),
            None => None,
        }
    }

    /// Stores `v` under `k`, replacing what was there.
    pub fn put(&mut self, k: K, v: V)
        requires
            old(self).wf(),
        ensures
            final(self).wf(),
            final(self)@ == old(self)@.insert(k, v),
    {
        match self.find(&k) {
            Some(i) => {
                self.values[i] = v;
                proof {
                    assert(self@ =~= old(self)@.insert(k, v));
                }
            },
            None => {
                self.keys.push(k);
                self.values.push(v);
                proof {
                    let n = old(self).keys@.len() as int;
                    assert(self.keys@[n] == k);
                    assert forall|q: K| self@.contains_key(q) <==> old(self)@.insert(
                        k,
                        v,
                    ).contains_key(q) by {
                        if old(self).keys@.contains(q) {
                            let j = old(self).keys@.index_of(q);
                            assert(self.keys@[j] == q);
                        }
                    }
                    assert(self@ =~= old(self)@.insert(k, v));
                }
            },
        }
    }

    /// Removes `k` and its value, if stored.
    pub fn remove(&mut self, k: &K)
        requires
            old(self).wf(),
        ensures
            final(self).wf(),
            final(self)@ == old(self)@.remove(*k),
    {
        match self.find(k) {
            Some(i) => {
                self.keys.remove(i);
                self.values.remove(i);
                proof {
                    let ok = old(self).keys@;
                    assert forall|q: K| self@.contains_key(q) <==> old(self)@.remove(
                        *k,
                    ).contains_key(q) by {
                        if ok.contains(q) && q != *k {
                            let j0 = ok.index_of(q);
                            let j = if j0 < i { j0 } else { j0 - 1 };
                            assert(self.keys@[j] == q);
                        }
                    }
                    assert(self@ =~= old(self)@.remove(*k));
                }
            },
            None => {},
        }
    }
}

} // verus!
