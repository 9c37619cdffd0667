use card_placement::cost_split::{
    allocate, is_eligible, lx_remaining, min_of, split_bounds, AllocationBound, CostSplit, LX_CEILING,
};
use card_placement::error::PlacementError;

fn bounds(hand_min: usize, hand_max: usize, jq_min: usize, jq_max: usize) -> CostSplit {
    CostSplit {
        hand: AllocationBound { min: hand_min, max: hand_max },
        jq: AllocationBound { min: jq_min, max: jq_max },
    }
}

#[test]
fn hand_alone_pays_when_passion_zone_is_empty() {
    assert_eq!(allocate(3, 5, 6, 0), Ok(bounds(3, 3, 0, 0)));
}

#[test]
fn passion_zone_covers_what_the_hand_cannot() {
    assert_eq!(allocate(5, 2, 6, 4), Ok(bounds(2, 2, 3, 4)));
}

#[test]
fn hand_minimum_drops_by_what_the_passion_zone_holds() {
    assert_eq!(allocate(3, 5, 6, 2), Ok(bounds(1, 3, 0, 2)));
    assert_eq!(allocate(3, 5, 6, 7), Ok(bounds(0, 3, 0, 3)));
}

#[test]
fn free_slots_of_the_reason_zone_limit_the_hand() {
    assert_eq!(allocate(4, 5, 1, 3), Ok(bounds(1, 1, 3, 3)));
    assert_eq!(allocate(2, 5, 0, 2), Ok(bounds(0, 0, 2, 2)));
}

#[test]
fn zero_cost_needs_nothing() {
    assert_eq!(allocate(0, 0, 0, 0), Ok(bounds(0, 0, 0, 0)));
    assert_eq!(allocate(0, 4, 6, 2), Ok(bounds(0, 0, 0, 0)));
}

#[test]
fn cost_beyond_both_pools_is_unsatisfiable() {
    assert_eq!(allocate(6, 2, 6, 3), Err(PlacementError::Unsatisfiable));
    assert_eq!(allocate(1, 0, 6, 0), Err(PlacementError::Unsatisfiable));
}

#[test]
fn cost_beyond_the_free_slots_is_unsatisfiable() {
    assert_eq!(allocate(5, 5, 2, 0), Err(PlacementError::Unsatisfiable));
    assert_eq!(allocate(5, 5, 2, 2), Err(PlacementError::Unsatisfiable));
    assert_eq!(allocate(5, 5, 2, 3), Ok(bounds(2, 2, 3, 3)));
}

#[test]
fn huge_numbers_do_not_overflow() {
    let big = usize::MAX;
    assert!(is_eligible(big, big, big, big));
    assert!(!is_eligible(big, 1, big, 1));
    assert_eq!(allocate(big, big, big, big), Ok(bounds(0, big, 0, big)));
    assert_eq!(allocate(big, big - 1, big, 1), Ok(bounds(big - 1, big - 1, 1, 1)));
}

#[test]
fn split_bounds_follow_the_formulas_even_when_unpayable() {
    assert_eq!(split_bounds(5, 5, 2, 0), bounds(2, 2, 3, 0));
}

#[test]
fn eligibility_is_cost_against_supply() {
    assert!(is_eligible(3, 5, 6, 0));
    assert!(is_eligible(5, 2, 6, 4));
    assert!(is_eligible(6, 2, 6, 4));
    assert!(!is_eligible(7, 2, 6, 4));
    assert!(!is_eligible(3, 5, 2, 0));
    assert!(is_eligible(0, 0, 0, 0));
}

#[test]
fn eligibility_gives_the_same_answer_twice() {
    for cost in 0..8usize {
        for hand in 0..5usize {
            for lx in 0..7usize {
                for jq in 0..4usize {
                    assert_eq!(is_eligible(cost, hand, lx, jq), is_eligible(cost, hand, lx, jq));
                }
            }
        }
    }
}

#[test]
fn payable_costs_have_a_split_and_others_have_none() {
    for cost in 0..10usize {
        for hand in 0..6usize {
            for lx in 0..7usize {
                for jq in 0..5usize {
                    let payable = cost <= hand.min(lx) + jq;
                    assert_eq!(is_eligible(cost, hand, lx, jq), payable);
                    let split = split_bounds(cost, hand, lx, jq);
                    let mut found = false;
                    for a in split.hand.min..=split.hand.max {
                        for b in split.jq.min..=split.jq.max {
                            if a + b == cost {
                                found = true;
                            }
                        }
                    }
                    assert_eq!(found, payable);
                    match allocate(cost, hand, lx, jq) {
                        Ok(s) => {
                            assert!(payable);
                            assert_eq!(s, split);
                            assert!(s.hand.min <= s.hand.max && s.hand.max <= hand);
                            assert!(s.hand.max <= lx);
                            assert!(s.jq.min <= s.jq.max && s.jq.max <= jq);
                            assert!(s.hand.min + s.jq.min <= cost);
                            assert!(cost <= s.hand.max + s.jq.max);
                        }
                        Err(e) => {
                            assert!(!payable);
                            assert_eq!(e, PlacementError::Unsatisfiable);
                        }
                    }
                }
            }
        }
    }
}

#[test]
fn reason_zone_has_six_slots() {
    assert_eq!(LX_CEILING, 6);
    assert_eq!(lx_remaining(0), 6);
    assert_eq!(lx_remaining(4), 2);
    assert_eq!(lx_remaining(6), 0);
    assert_eq!(lx_remaining(9), 0);
}

#[test]
fn min_of_picks_the_smaller() {
    assert_eq!(min_of(2, 6), 2);
    assert_eq!(min_of(6, 2), 2);
    assert_eq!(min_of(3, 3), 3);
}
