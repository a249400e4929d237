//! A small verified key-value store used for all of the engine's shared maps.

use vstd::prelude::*;

verus! {

/// An association list from `u64` keys to values, holding each key at most
/// once. It backs every shared map of the engine, so that lookups and updates
/// carry exact contracts; its abstract view is a `Map<u64, V>`.
#[derive(Debug)]
pub struct KvMap<V> {
    entries: Vec<(u64, V)>,
}

impl<V> KvMap<V> {
    /// Each key occurs at most once.
    pub closed spec fn wf(self) -> bool {
        forall|i: int, j: int|
            0 <= i < j < self.entries@.len() ==> self.entries@[i].0 != self.entries@[j].0
    }

    pub closed spec fn spec_contains(self, k: u64) -> bool {
        exists|i: int| 0 <= i < self.entries@.len() && self.entries@[i].0 == k
    }

    spec fn key_index(self, k: u64) -> int {
        choose|i: int| 0 <= i < self.entries@.len() && self.entries@[i].0 == k
    }

    pub closed spec fn spec_get(self, k: u64) -> V
        recommends
            self.spec_contains(k),
    {
        self.entries@[self.key_index(k)].1
    }

    proof fn lemma_get_at(self, k: u64, i: int)
        requires
            self.wf(),
            0 <= i < self.entries@.len(),
            self.entries@[i].0 == k,
        ensures
            self.spec_contains(k),
            self.key_index(k) == i,
            self.spec_get(k) == self.entries@[i].1,
    {
        let j = self.key_index(k);
        assert(0 <= j < self.entries@.len() && self.entries@[j].0 == k);
        if i != j {
            if i < j {
                assert(self.entries@[i].0 != self.entries@[j].0);
            } else {
                assert(self.entries@[j].0 != self.entries@[i].0);
            }
        }
    }

    pub fn new() -> (r: Self)
        ensures
            r.wf(),
            r@ == Map::<u64, V>::empty(),
    {
        let r = KvMap { entries: Vec::new() };
        proof {
            assert(r@ =~= Map::<u64, V>::empty());
        }
        r
    }

    fn find(&self, k: u64) -> (r: Option<usize>)
        ensures
            match r {
                Some(i) => i < self.entries@.len() && self.entries@[i as int].0 == k,
                None => !self.spec_contains(k),
            },
    {
        let n = self.entries.len();
        let mut i: usize = 0;
        while i < n
            invariant
                i <= n,
                n == self.entries@.len(),
                forall|j: int| 0 <= j < i ==> self.entries@[j].0 != k,
            decreases n - i,
        {
            if self.entries[i].0 == k {
                return Some(i);
            }
            i = i + 1;
        }
        None
    }

    pub fn contains(&self, k: u64) -> (r: bool)
        requires
            self.wf(),
        ensures
            r == self@.contains_key(k),
    {
        self.find(k).is_some()
    }

    pub fn get(&self, k: u64) -> (r: Option<&V>)
        requires
            self.wf(),
        ensures
            match r {
                Some(v) => self@.contains_key(k) && *v == self@[k],
                None => !self@.contains_key(k),
            },
    {
        match self.find(k) {
            Some(i) => {
                proof {
                    self.lemma_get_at(k, i as int);
                }
                Some(&self.entries[i].1)
            },
            None => None,
        }
    }

    pub fn insert(&mut self, k: u64, v: V)
        requires
            old(self).wf(),
        ensures
            final(self).wf(),
            final(self)@ == old(self)@.insert(k, v),
    {
        let ghost prev = *old(self);
        match self.find(k) {
            Some(i) => {
                self.entries.set(i, (k, v));
                proof {
                    assert forall|q: u64| #[trigger] self.spec_contains(q) == prev.spec_contains(
                        q,
                    ) by {
                        assert(forall|j: int|
                            0 <= j < self.entries@.len() ==> self.entries@[j].0
                                == prev.entries@[j].0);
                    }
                    assert forall|q: u64| q != k && prev.spec_contains(q) implies #[trigger] self
                        .spec_get(q) == prev.spec_get(q) by {
                        let j = prev.key_index(q);
                        prev.lemma_get_at(q, j);
                        assert(self.entries@[j].0 == q);
                        self.lemma_get_at(q, j);
                    }
                    self.lemma_get_at(k, i as int);
                    assert(self@ =~= prev@.insert(k, v));
                }
            },
            None => {
                self.entries.push((k, v));
                proof {
                    let n = prev.entries@.len() as int;
                    assert forall|q: u64| q != k implies #[trigger] self.spec_contains(q)
                        == prev.spec_contains(q) by {
                        if self.spec_contains(q) {
                            let j = choose|j: int|
                                0 <= j < self.entries@.len() && self.entries@[j].0 == q;
                            assert(j < n);
                            assert(prev.entries@[j].0 == q);
                        }
                        if prev.spec_contains(q) {
                            let j = choose|j: int|
                                0 <= j < prev.entries@.len() && prev.entries@[j].0 == q;
                            assert(self.entries@[j].0 == q);
                        }
                    }
                    assert forall|q: u64| q != k && prev.spec_contains(q) implies #[trigger] self
                        .spec_get(q) == prev.spec_get(q) by {
                        let j = prev.key_index(q);
                        prev.lemma_get_at(q, j);
                        assert(self.entries@[j].0 == q);
                        self.lemma_get_at(q, j);
                    }
                    self.lemma_get_at(k, n);
                    assert(self@ =~= prev@.insert(k, v));
                }
            },
        }
    }

    pub fn remove(&mut self, k: u64) -> (r: Option<V>)
        requires
            old(self).wf(),
        ensures
            final(self).wf(),
            final(self)@ == old(self)@.remove(k),
            match r {
                Some(v) => old(self)@.contains_key(k) && v == old(self)@[k],
                None => !old(self)@.contains_key(k),
            },
    {
        let ghost prev = *old(self);
        match self.find(k) {
            Some(i) => {
                proof {
                    self.lemma_get_at(k, i as int);
                }
                let v = self.entries.remove(i);
                proof {
                    let n = prev.entries@.len() as int;
                    assert(self.entries@ == prev.entries@.remove(i as int));
                    assert(forall|j: int|
                        0 <= j < i ==> self.entries@[j] == prev.entries@[j]);
                    assert(forall|j: int|
                        i <= j < n - 1 ==> self.entries@[j] == prev.entries@[j + 1]);
                    assert(self.wf());
                    assert forall|q: u64| q != k implies #[trigger] self.spec_contains(q)
                        == prev.spec_contains(q) by {
                        if self.spec_contains(q) {
                            let j = choose|j: int|
                                0 <= j < self.entries@.len() && self.entries@[j].0 == q;
                            if j < i {
                                assert(prev.entries@[j].0 == q);
                            } else {
                                assert(prev.entries@[j + 1].0 == q);
                            }
                        }
                        if prev.spec_contains(q) {
                            let j = choose|j: int|
                                0 <= j < prev.entries@.len() && prev.entries@[j].0 == q;
                            assert(j != i) by {
                                prev.lemma_get_at(k, i as int);
                                prev.lemma_get_at(q, j);
                            }
                            if j < i {
                                assert(self.entries@[j].0 == q);
                            } else {
                                assert(self.entries@[j - 1].0 == q);
                            }
                        }
                    }
                    assert forall|q: u64| q != k && prev.spec_contains(q) implies #[trigger] self
                        .spec_get(q) == prev.spec_get(q) by {
                        let j = prev.key_index(q);
                        prev.lemma_get_at(q, j);
                        if j < i {
                            assert(self.entries@[j].0 == q);
                            self.lemma_get_at(q, j);
                        } else {
                            assert(j > i) by {
                                prev.lemma_get_at(k, i as int);
                            }
                            assert(self.entries@[j - 1].0 == q);
                            self.lemma_get_at(q, j - 1);
                        }
                    }
                    assert forall|q: u64| self.spec_contains(q) implies q != k by {
                        if q == k {
                            let j = choose|j: int|
                                0 <= j < self.entries@.len() && self.entries@[j].0 == k;
                            if j < i {
                                prev.lemma_get_at(k, j);
                                prev.lemma_get_at(k, i as int);
                            } else {
                                prev.lemma_get_at(k, j + 1);
                                prev.lemma_get_at(k, i as int);
                            }
                        }
                    }
                    assert(self@ =~= prev@.remove(k));
                }
                Some(v.1)
            },
            None => {
                proof {
                    assert(self@ =~= prev@.remove(k));
                }
                None
            },
        }
    }
}

/// The map a sequence of entries builds up, inserted first to last, a later
/// entry overwriting an earlier one with the same key.
pub open spec fn entries_to_map<V>(s: Seq<(u64, V)>) -> Map<u64, V>
    decreases s.len(),
{
    if s.len() == 0 {
        Map::empty()
    } else {
        entries_to_map(s.drop_last()).insert(s.last().0, s.last().1)
    }
}

impl<V: Copy> KvMap<V> {
    /// The map the given entries build up, inserted in order.
    pub fn from_entries(entries: &Vec<(u64, V)>) -> (r: Self)
        ensures
            r.wf(),
            r@ == entries_to_map(entries@),
    {
        let n = entries.len();
        let mut r = KvMap::new();
        let mut i: usize = 0;
        while i < n
            invariant
                i <= n,
                n == entries@.len(),
                r.wf(),
                r@ == entries_to_map(entries@.subrange(0, i as int)),
            decreases n - i,
        {
            let (key, value) = entries[i];
            r.insert(key, value);
            proof {
                assert(entries@.subrange(0, i + 1 as int).drop_last() == entries@.subrange(
                    0,
                    i as int,
                ));
                assert(entries@.subrange(0, i + 1 as int).last() == entries@[i as int]);
            }
            i = i + 1;
        }
        proof {
            assert(entries@.subrange(0, n as int) == entries@);
        }
        r
    }

    /// A copy of the map, entry by entry.
    pub fn duplicate(&self) -> (r: Self)
        requires
            self.wf(),
        ensures
            r.wf(),
            r@ == self@,
    {
        let n = self.entries.len();
        let mut out: Vec<(u64, V)> = Vec::new();
        let mut i: usize = 0;
        while i < n
            invariant
                i <= n,
                n == self.entries@.len(),
                out@ == self.entries@.subrange(0, i as int),
            decreases n - i,
        {
            out.push(self.entries[i]);
            i = i + 1;
        }
        let r = KvMap { entries: out };
        proof {
            assert(r.entries@ == self.entries@);
            assert(r@ =~= self@);
        }
        r
    }
}

impl<V> View for KvMap<V> {
    type V = Map<u64, V>;

    closed spec fn view(&self) -> Map<u64, V> {
        Map::new(|k: u64| self.spec_contains(k), |k: u64| self.spec_get(k))
    }
}

} // verus!
