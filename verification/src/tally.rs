//! Counters per provider: cumulative failure scores and current usage counts.

use crate::kvmap::KvMap;
use vstd::prelude::*;

verus! {

/// A total counter map from provider identifiers to `i32` tallies. A key that
/// was never touched counts as zero, so the failure and usage maps behave as
/// if every provider started with an explicit zero entry.
#[derive(Debug)]
pub struct TallyMap {
    map: KvMap<i32>,
}

impl TallyMap {
    pub closed spec fn wf(self) -> bool {
        self.map.wf()
    }

    /// The tally recorded for `k`, zero when `k` is absent.
    pub closed spec fn count(self, k: u64) -> i32 {
        if self.map@.contains_key(k) {
            self.map@[k]
        } else {
            0
        }
    }

    pub fn new() -> (r: Self)
        ensures
            r.wf(),
            forall|k: u64| r.count(k) == 0,
    {
        TallyMap { map: KvMap::new() }
    }

    pub fn get(&self, k: u64) -> (r: i32)
        requires
            self.wf(),
        ensures
            r == self.count(k),
    {
        match self.map.get(k) {
            Some(v) => *v,
            None => 0,
        }
    }

    pub fn increment(&mut self, k: u64)
        requires
            old(self).wf(),
            old(self).count(k) < i32::MAX,
        ensures
            final(self).wf(),
            final(self).count(k) == old(self).count(k) + 1,
            forall|q: u64| q != k ==> final(self).count(q) == old(self).count(q),
    {
        let v = self.get(k);
        self.map.insert(k, v + 1);
    }

    pub fn decrement(&mut self, k: u64)
        requires
            old(self).wf(),
            old(self).count(k) > i32::MIN,
        ensures
            final(self).wf(),
            final(self).count(k) == old(self).count(k) - 1,
            forall|q: u64| q != k ==> final(self).count(q) == old(self).count(q),
    {
        let v = self.get(k);
        self.map.insert(k, v - 1);
    }

    /// Decrement the tally for `k` only when it is present with a nonzero
    /// value; an absent or zero tally is left untouched.
    pub fn decrement_if_nonzero(&mut self, k: u64)
        requires
            old(self).wf(),
            old(self).count(k) > i32::MIN,
        ensures
            final(self).wf(),
            old(self).count(k) != 0 ==> final(self).count(k) == old(self).count(k) - 1,
            old(self).count(k) == 0 ==> final(self).count(k) == old(self).count(k),
            forall|q: u64| q != k ==> final(self).count(q) == old(self).count(q),
    {
        let v = self.get(k);
        if v != 0 {
            self.map.insert(k, v - 1);
        }
    }

    /// A snapshot with the same tallies, used to publish the failure map in a
    /// worker's outcome.
    pub fn duplicate(&self) -> (r: Self)
        requires
            self.wf(),
        ensures
            r.wf(),
            forall|q: u64| r.count(q) == self.count(q),
    {
        TallyMap { map: self.map.duplicate() }
    }
}

} // verus!
