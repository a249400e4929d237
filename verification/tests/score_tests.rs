use flexo::score::DynamicScore;

#[test]
fn test_no_failures_preferred() {
    let s1 = DynamicScore {
        num_failures: 2,
        num_current_usages: 23,
        initial_score: 0,
    };
    let s2 = DynamicScore {
        num_failures: 0,
        num_current_usages: 0,
        initial_score: -1,
    };
    assert!(s2 < s1);
}

#[test]
fn test_initial_score_lower_is_better() {
    let s1 = DynamicScore {
        num_failures: 0,
        num_current_usages: 0,
        initial_score: 0,
    };
    let s2 = DynamicScore {
        num_failures: 0,
        num_current_usages: 0,
        initial_score: -1,
    };
    assert!(s2 < s1);
}

#[test]
fn test_usages_break_failure_ties() {
    let busy = DynamicScore {
        num_failures: 1,
        num_current_usages: 5,
        initial_score: -10,
    };
    let idle = DynamicScore {
        num_failures: 1,
        num_current_usages: 0,
        initial_score: 3,
    };
    assert!(idle < busy);
    assert!(!(busy < idle));
}

#[test]
fn test_equal_scores_not_less() {
    let a = DynamicScore {
        num_failures: 1,
        num_current_usages: 2,
        initial_score: 3,
    };
    let b = DynamicScore {
        num_failures: 1,
        num_current_usages: 2,
        initial_score: 3,
    };
    assert!(!(a < b));
    assert!(!(b < a));
    assert!(a <= b);
}
