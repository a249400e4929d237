//! The score function that orders providers at selection time.

use vstd::prelude::*;
use vstd::std_specs::cmp::PartialOrdSpec;

verus! {

/// A score that incorporates the information gained while using a provider.
/// Scores are compared lexicographically on (failures, current usages, static
/// rank); the provider with the smallest tuple is preferred. Failures dominate
/// so that a misbehaving mirror quickly loses its top spot; usages come next so
/// that concurrent requests fan out; the static rank is the tiebreaker.
#[derive(Clone, Copy, Debug, PartialEq, Eq, Structural)]
pub struct DynamicScore {
    pub num_failures: i32,
    pub num_current_usages: i32,
    pub initial_score: i64,
}

impl DynamicScore {
    /// Strict lexicographic order on (num_failures, num_current_usages, initial_score).
    pub open spec fn lt_spec(self, other: DynamicScore) -> bool {
        ||| self.num_failures < other.num_failures
        ||| (self.num_failures == other.num_failures
            && self.num_current_usages < other.num_current_usages)
        ||| (self.num_failures == other.num_failures
            && self.num_current_usages == other.num_current_usages
            && self.initial_score < other.initial_score)
    }
}

impl PartialOrd for DynamicScore {
    fn partial_cmp(&self, other: &Self) -> (r: Option<core::cmp::Ordering>) {
        if self.num_failures < other.num_failures {
            Some(core::cmp::Ordering::Less)
        } else if self.num_failures > other.num_failures {
            Some(core::cmp::Ordering::Greater)
        } else if self.num_current_usages < other.num_current_usages {
            Some(core::cmp::Ordering::Less)
        } else if self.num_current_usages > other.num_current_usages {
            Some(core::cmp::Ordering::Greater)
        } else if self.initial_score < other.initial_score {
            Some(core::cmp::Ordering::Less)
        } else if self.initial_score > other.initial_score {
            Some(core::cmp::Ordering::Greater)
        } else {
            Some(core::cmp::Ordering::Equal)
        }
    }
}

impl vstd::std_specs::cmp::PartialOrdSpecImpl for DynamicScore {
    open spec fn obeys_partial_cmp_spec() -> bool {
        true
    }

    open spec fn partial_cmp_spec(&self, other: &Self) -> Option<core::cmp::Ordering> {
        if self.lt_spec(*other) {
            Some(core::cmp::Ordering::Less)
        } else if other.lt_spec(*self) {
            Some(core::cmp::Ordering::Greater)
        } else {
            Some(core::cmp::Ordering::Equal)
        }
    }
}

/// Law: one dynamic score is below another exactly when its triple
/// (failures, usages, static rank) is lexicographically below the other's.
pub proof fn lemma_dynamic_score_lexicographic(a: DynamicScore, b: DynamicScore)
    ensures
        a.partial_cmp_spec(&b) == Some(core::cmp::Ordering::Less) <==> (a.num_failures
            < b.num_failures || (a.num_failures == b.num_failures && a.num_current_usages
            < b.num_current_usages) || (a.num_failures == b.num_failures && a.num_current_usages
            == b.num_current_usages && a.initial_score < b.initial_score)),
{
}

} // verus!
