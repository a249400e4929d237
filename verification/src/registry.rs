//! The provider registry: the provider list and the live tallies, with the
//! punish / reward / pardon bookkeeping and score-based selection.

use crate::score::DynamicScore;
use crate::tally::TallyMap;
use vstd::prelude::*;

verus! {

/// One upstream provider (mirror). The identity is an opaque `u64` key chosen
/// by the embedding program; the static rank comes from the mirror ranking
/// subsystem, lower being better.
#[derive(Clone, Copy, Debug, PartialEq, Eq, Hash, Structural)]
pub struct Provider {
    pub id: u64,
    pub initial_score: i64,
}

/// No two providers of the sequence share an identity.
pub open spec fn distinct_ids(s: Seq<Provider>) -> bool {
    forall|i: int, j: int| 0 <= i < j < s.len() ==> s[i].id != s[j].id
}

/// Whether some provider of the sequence carries the identity `q`.
pub open spec fn contains_id(s: Seq<Provider>, q: u64) -> bool {
    exists|i: int| 0 <= i < s.len() && s[i].id == q
}

/// The dynamic score of `p` under the given tallies.
pub open spec fn dynamic_score_of(failures: TallyMap, usages: TallyMap, p: Provider) -> DynamicScore {
    DynamicScore {
        num_failures: failures.count(p.id),
        num_current_usages: usages.count(p.id),
        initial_score: p.initial_score,
    }
}

impl Provider {
    /// Record one failure against this provider.
    pub fn punish(self, failures: &mut TallyMap)
        requires
            old(failures).wf(),
            old(failures).count(self.id) < i32::MAX,
        ensures
            final(failures).wf(),
            final(failures).count(self.id) == old(failures).count(self.id) + 1,
            forall|q: u64| q != self.id ==> final(failures).count(q) == old(failures).count(q),
    {
        failures.increment(self.id);
    }

    /// Record one success for this provider.
    pub fn reward(self, failures: &mut TallyMap)
        requires
            old(failures).wf(),
            old(failures).count(self.id) > i32::MIN,
        ensures
            final(failures).wf(),
            final(failures).count(self.id) == old(failures).count(self.id) - 1,
            forall|q: u64| q != self.id ==> final(failures).count(q) == old(failures).count(q),
    {
        failures.decrement(self.id);
    }
}

/// Withdraw one recorded failure from every provider that was punished during
/// an ultimately-failing attempt sequence, so that a globally unreachable
/// order leaves no permanent stain on provider reputations. A provider whose
/// tally is absent or zero is silently skipped.
pub fn pardon(punished_providers: &Vec<Provider>, failures: &mut TallyMap)
    requires
        old(failures).wf(),
        distinct_ids(punished_providers@),
        forall|i: int|
            0 <= i < punished_providers@.len() ==> old(failures).count(
                #[trigger] punished_providers@[i].id,
            ) > i32::MIN,
    ensures
        final(failures).wf(),
        forall|q: u64|
            contains_id(punished_providers@, q) && old(failures).count(q) != 0
                ==> final(failures).count(q) == old(failures).count(q) - 1,
        forall|q: u64|
            contains_id(punished_providers@, q) && old(failures).count(q) == 0
                ==> final(failures).count(q) == old(failures).count(q),
        forall|q: u64|
            !contains_id(punished_providers@, q) ==> final(failures).count(q) == old(
                failures,
            ).count(q),
{
    let ghost orig = *old(failures);
    let n = punished_providers.len();
    let mut i: usize = 0;
    while i < n
        invariant
            i <= n,
            n == punished_providers@.len(),
            failures.wf(),
            distinct_ids(punished_providers@),
            forall|j: int|
                0 <= j < punished_providers@.len() ==> orig.count(
                    #[trigger] punished_providers@[j].id,
                ) > i32::MIN,
            forall|q: u64|
                contains_id(punished_providers@.subrange(0, i as int), q) && orig.count(q) != 0
                    ==> failures.count(q) == orig.count(q) - 1,
            forall|q: u64|
                contains_id(punished_providers@.subrange(0, i as int), q) && orig.count(q) == 0
                    ==> failures.count(q) == orig.count(q),
            forall|q: u64|
                !contains_id(punished_providers@.subrange(0, i as int), q) ==> failures.count(q)
                    == orig.count(q),
        decreases n - i,
    {
        let not_guilty = punished_providers[i];
        proof {
            assert(punished_providers@[i as int].id == not_guilty.id);
            assert(!contains_id(punished_providers@.subrange(0, i as int), not_guilty.id));
        }
        failures.decrement_if_nonzero(not_guilty.id);
        proof {
            assert forall|q: u64|
                contains_id(punished_providers@.subrange(0, i + 1 as int), q) && orig.count(q)
                    != 0 implies failures.count(q) == orig.count(q) - 1 by {
                let j = choose|j: int|
                    0 <= j < i + 1 && (#[trigger] punished_providers@.subrange(
                        0,
                        i + 1 as int,
                    )[j]).id == q;
                if j < i {
                    assert(contains_id(punished_providers@.subrange(0, i as int), q));
                } else {
                    assert(q == not_guilty.id);
                }
            }
            assert forall|q: u64|
                contains_id(punished_providers@.subrange(0, i + 1 as int), q) && orig.count(q)
                    == 0 implies failures.count(q) == orig.count(q) by {
                let j = choose|j: int|
                    0 <= j < i + 1 && (#[trigger] punished_providers@.subrange(
                        0,
                        i + 1 as int,
                    )[j]).id == q;
                if j < i {
                    assert(contains_id(punished_providers@.subrange(0, i as int), q));
                } else {
                    assert(q == not_guilty.id);
                }
            }
            assert forall|q: u64|
                !contains_id(punished_providers@.subrange(0, i + 1 as int), q) implies failures
                .count(q) == orig.count(q) by {
                assert(!contains_id(punished_providers@.subrange(0, i as int), q)) by {
                    if contains_id(punished_providers@.subrange(0, i as int), q) {
                        let j = choose|j: int|
                            0 <= j < i && (#[trigger] punished_providers@.subrange(
                                0,
                                i as int,
                            )[j]).id == q;
                        assert(punished_providers@.subrange(0, i + 1 as int)[j].id == q);
                    }
                }
                assert(q != not_guilty.id) by {
                    assert(punished_providers@.subrange(0, i + 1 as int)[i as int].id
                        == not_guilty.id);
                }
            }
        }
        i = i + 1;
    }
    proof {
        assert(punished_providers@.subrange(0, n as int) == punished_providers@);
    }
}

/// Removing one provider from a list of distinct identities removes exactly
/// that identity.
pub proof fn lemma_remove_id(s: Seq<Provider>, i: int)
    requires
        distinct_ids(s),
        0 <= i < s.len(),
    ensures
        distinct_ids(s.remove(i)),
        forall|q: u64| contains_id(s.remove(i), q) <==> (contains_id(s, q) && q != s[i].id),
{
    let t = s.remove(i);
    assert forall|q: u64| contains_id(t, q) implies (contains_id(s, q) && q != s[i].id) by {
        let j = choose|j: int| 0 <= j < t.len() && (#[trigger] t[j]).id == q;
        if j < i {
            assert(s[j].id == q);
        } else {
            assert(s[j + 1].id == q);
        }
    }
    assert forall|q: u64| contains_id(s, q) && q != s[i].id implies contains_id(t, q) by {
        let j = choose|j: int| 0 <= j < s.len() && (#[trigger] s[j]).id == q;
        if j < i {
            assert(t[j].id == q);
        } else {
            assert(j != i);
            assert(t[j - 1].id == q);
        }
    }
}

/// The list of providers still available to one attempt sequence, together
/// with the shared failure and usage tallies.
pub struct ProvidersWithStats {
    pub providers: Vec<Provider>,
    pub provider_failures: TallyMap,
    pub provider_current_usages: TallyMap,
}

impl ProvidersWithStats {
    pub open spec fn wf(self) -> bool {
        &&& self.provider_failures.wf()
        &&& self.provider_current_usages.wf()
        &&& distinct_ids(self.providers@)
    }

    /// Pick the provider with the smallest dynamic score among the remaining
    /// ones (the first such provider on a tie), remove it from the remaining
    /// list, and report whether the list is now empty.
    pub fn select_provider(&mut self) -> (r: (Provider, bool))
        requires
            old(self).wf(),
            old(self).providers@.len() > 0,
        ensures
            final(self).wf(),
            final(self).provider_failures == old(self).provider_failures,
            final(self).provider_current_usages == old(self).provider_current_usages,
            r.1 == (final(self).providers@.len() == 0),
            final(self).providers@.len() == old(self).providers@.len() - 1,
            exists|i: int|
                {
                    &&& 0 <= i < old(self).providers@.len()
                    &&& old(self).providers@[i] == r.0
                    &&& final(self).providers@ == old(self).providers@.remove(i)
                    &&& forall|j: int|
                        0 <= j < i ==> dynamic_score_of(
                            old(self).provider_failures,
                            old(self).provider_current_usages,
                            r.0,
                        ).lt_spec(
                            dynamic_score_of(
                                old(self).provider_failures,
                                old(self).provider_current_usages,
                                #[trigger] old(self).providers@[j],
                            ),
                        )
                },
            forall|j: int|
                0 <= j < old(self).providers@.len() ==> !dynamic_score_of(
                    old(self).provider_failures,
                    old(self).provider_current_usages,
                    #[trigger] old(self).providers@[j],
                ).lt_spec(
                    dynamic_score_of(
                        old(self).provider_failures,
                        old(self).provider_current_usages,
                        r.0,
                    ),
                ),
    {
        let n = self.providers.len();
        let mut best: usize = 0;
        let mut best_score = DynamicScore {
            num_failures: self.provider_failures.get(self.providers[0].id),
            num_current_usages: self.provider_current_usages.get(self.providers[0].id),
            initial_score: self.providers[0].initial_score,
        };
        let mut j: usize = 1;
        while j < n
            invariant
                1 <= j <= n,
                n == self.providers@.len(),
                best < j,
                self.wf(),
                best_score == dynamic_score_of(
                    self.provider_failures,
                    self.provider_current_usages,
                    self.providers@[best as int],
                ),
                forall|t: int|
                    0 <= t < j ==> !dynamic_score_of(
                        self.provider_failures,
                        self.provider_current_usages,
                        #[trigger] self.providers@[t],
                    ).lt_spec(best_score),
                forall|t: int|
                    0 <= t < best ==> best_score.lt_spec(
                        dynamic_score_of(
                            self.provider_failures,
                            self.provider_current_usages,
                            #[trigger] self.providers@[t],
                        ),
                    ),
            decreases n - j,
        {
            let candidate = DynamicScore {
                num_failures: self.provider_failures.get(self.providers[j].id),
                num_current_usages: self.provider_current_usages.get(self.providers[j].id),
                initial_score: self.providers[j].initial_score,
            };
            if candidate < best_score {
                best = j;
                best_score = candidate;
            }
            j = j + 1;
        }
        let provider = self.providers.remove(best);
        (provider, self.providers.is_empty())
    }
}

} // verus!
