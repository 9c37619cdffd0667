//! How a card's cost may be divided between the hand and the passion zone.
//!
//! A card that pays from the hand moves into the reason zone, which holds at
//! most [`LX_CEILING`] cards. The hand is therefore limited twice: by the
//! cards in it and by the free slots of the reason zone. The passion zone
//! pays without any such coupling.

use vstd::prelude::*;
use crate::error::PlacementError;

verus! {

/// The number of cards that the reason zone can hold.
pub const LX_CEILING: usize = 6;

/// The smaller of two numbers.
pub open spec fn min2(a: int, b: int) -> int {
    if a <= b {
        a
    } else {
        b
    }
}

/// How many cards the hand can contribute at most: one per card in it and
/// one per free slot of the reason zone.
pub open spec fn hand_supply(hand_available: int, lx_remaining: int) -> int {
    min2(hand_available, lx_remaining)
}

/// Whether the two pools can pay `cost` at all.
pub open spec fn payable(cost: int, hand_available: int, lx_remaining: int, jq_available: int) -> bool {
    cost <= hand_supply(hand_available, lx_remaining) + jq_available
}

/// The most that the hand may pay.
pub open spec fn hand_max_of(cost: int, hand_available: int, lx_remaining: int) -> int {
    min2(cost, hand_supply(hand_available, lx_remaining))
}

/// The least that the hand must pay.
pub open spec fn hand_min_of(cost: int, hand_available: int, lx_remaining: int, jq_available: int) -> int {
    let top = hand_max_of(cost, hand_available, lx_remaining);
    if cost <= hand_supply(hand_available, lx_remaining) {
        if top >= jq_available {
            top - jq_available
        } else {
            0
        }
    } else {
        top
    }
}

/// The most that the passion zone may pay.
pub open spec fn jq_max_of(cost: int, jq_available: int) -> int {
    min2(cost, jq_available)
}

/// The least that the passion zone must pay.
pub open spec fn jq_min_of(cost: int, hand_available: int, lx_remaining: int) -> int {
    if cost <= hand_supply(hand_available, lx_remaining) {
        0
    } else {
        cost - hand_supply(hand_available, lx_remaining)
    }
}

/// The inclusive range in which the number of cards taken from one pool must
/// lie.
#[derive(Debug, Clone, Copy, PartialEq, Eq, Structural)]
pub struct AllocationBound {
    pub min: usize,
    pub max: usize,
}

impl AllocationBound {
    /// Whether `n` lies within the bound.
    pub open spec fn admits(self, n: int) -> bool {
        self.min <= n <= self.max
    }
}

/// The bounds for both pools.
#[derive(Debug, Clone, Copy, PartialEq, Eq, Structural)]
pub struct CostSplit {
    /// What the hand pays.
    pub hand: AllocationBound,
    /// What the passion zone pays.
    pub jq: AllocationBound,
}

impl CostSplit {
    /// The bounds that the formulas give for these numbers.
    pub open spec fn is_split_of(
        self,
        cost: int,
        hand_available: int,
        lx_remaining: int,
        jq_available: int,
    ) -> bool {
        &&& self.hand.min == hand_min_of(cost, hand_available, lx_remaining, jq_available)
        &&& self.hand.max == hand_max_of(cost, hand_available, lx_remaining)
        &&& self.jq.min == jq_min_of(cost, hand_available, lx_remaining)
        &&& self.jq.max == jq_max_of(cost, jq_available)
    }

    /// Whether some choice within both bounds pays exactly `cost`.
    pub open spec fn can_pay(self, cost: int) -> bool {
        exists|from_hand: int, from_jq: int|
            self.hand.admits(from_hand) && self.jq.admits(from_jq) && #[trigger] (from_hand
                + from_jq) == cost
    }
}

/// The smaller of two numbers.
pub fn min_of(a: usize, b: usize) -> (m: usize)
    ensures
        m == min2(a as int, b as int),
{
    if a <= b {
        a
    } else {
        b
    }
}

/// The free slots of a reason zone that holds `lx_used` cards; none when it
/// is full or over-full.
pub open spec fn lx_left(lx_used: int) -> int {
    if lx_used <= LX_CEILING {
        LX_CEILING - lx_used
    } else {
        0
    }
}

/// The free slots of a reason zone that holds `lx_used` cards.
pub fn lx_remaining(lx_used: usize) -> (free: usize)
    ensures
        free == lx_left(lx_used as int),
{
    if lx_used <= LX_CEILING {
        LX_CEILING - lx_used
    } else {
        0
    }
}

/// Whether a card of this cost can be paid for: the cost is at most what the
/// hand can supply plus what the passion zone holds.
pub fn is_eligible(cost: usize, hand_count: usize, lx_remaining: usize, jq_count: usize) -> (yes: bool)
    ensures
        yes == payable(cost as int, hand_count as int, lx_remaining as int, jq_count as int),
{
    let supply: usize = min_of(hand_count, lx_remaining);
    cost <= supply || cost - supply <= jq_count
}

/// The four bounds, by the formulas, whether or not they can be met.
pub fn split_bounds(cost: usize, hand_available: usize, lx_remaining: usize, jq_available: usize) -> (split: CostSplit)
    ensures
        split.is_split_of(cost as int, hand_available as int, lx_remaining as int, jq_available as int),
{
    let supply: usize = min_of(hand_available, lx_remaining);
    let hand_max: usize = min_of(cost, supply);
    let hand_min: usize = if cost <= supply {
        if hand_max >= jq_available {
            hand_max - jq_available
        } else {
            0
        }
    } else {
        hand_max
    };
    let jq_min: usize = if cost <= supply {
        0
    } else {
        cost - supply
    };
    let jq_max: usize = min_of(cost, jq_available);
    CostSplit {
        hand: AllocationBound { min: hand_min, max: hand_max },
        jq: AllocationBound { min: jq_min, max: jq_max },
    }
}

/// The bounds for a card that can be paid for, and `Unsatisfiable` for one
/// that cannot.
pub fn allocate(cost: usize, hand_available: usize, lx_remaining: usize, jq_available: usize) -> (r: Result<CostSplit, PlacementError>)
    ensures
        payable(cost as int, hand_available as int, lx_remaining as int, jq_available as int) ==> {
            &&& r is Ok
            &&& r->Ok_0.is_split_of(
                cost as int,
                hand_available as int,
                lx_remaining as int,
                jq_available as int,
            )
            &&& r->Ok_0.hand.min <= r->Ok_0.hand.max <= hand_available
            &&& r->Ok_0.jq.min <= r->Ok_0.jq.max <= jq_available
            &&& r->Ok_0.hand.min + r->Ok_0.jq.min <= cost <= r->Ok_0.hand.max + r->Ok_0.jq.max
            &&& r->Ok_0.can_pay(cost as int)
        },
        !payable(cost as int, hand_available as int, lx_remaining as int, jq_available as int) ==> r
            == Err::<CostSplit, PlacementError>(PlacementError::Unsatisfiable),
{
    if is_eligible(cost, hand_available, lx_remaining, jq_available) {
        let split = split_bounds(cost, hand_available, lx_remaining, jq_available);
        proof {
            lemma_payable_split(
                split,
                cost as nat,
                hand_available as nat,
                lx_remaining as nat,
                jq_available as nat,
            );
        }
        Ok(split)
    } else {
        Err(PlacementError::Unsatisfiable)
    }
}

/// The bounds of a payable cost are sound: in each pool the least is at most
/// the most, which is at most what the pool holds; the two least together do
/// not exceed the cost, the two most together reach it; and some choice
/// within the bounds pays the cost exactly.
pub proof fn lemma_payable_split(
    split: CostSplit,
    cost: nat,
    hand_available: nat,
    lx_remaining: nat,
    jq_available: nat,
)
    requires
        cost <= min2(hand_available as int, lx_remaining as int) + jq_available,
        split.is_split_of(cost as int, hand_available as int, lx_remaining as int, jq_available as int),
    ensures
        split.hand.min <= split.hand.max <= hand_available,
        split.hand.max <= lx_remaining,
        split.jq.min <= split.jq.max <= jq_available,
        split.hand.min + split.jq.min <= cost <= split.hand.max + split.jq.max,
        split.can_pay(cost as int),
{
    let from_hand: int = split.hand.max as int;
    let from_jq: int = cost - split.hand.max;
    assert(split.hand.admits(from_hand) && split.jq.admits(from_jq) && from_hand + from_jq == cost);
}

/// The bounds of a cost that is not payable cannot be met by any choice.
pub proof fn lemma_unpayable_split(
    split: CostSplit,
    cost: nat,
    hand_available: nat,
    lx_remaining: nat,
    jq_available: nat,
)
    requires
        cost > min2(hand_available as int, lx_remaining as int) + jq_available,
        split.is_split_of(cost as int, hand_available as int, lx_remaining as int, jq_available as int),
    ensures
        split.jq.min > split.jq.max,
        !split.can_pay(cost as int),
{
}

/// The test that marks a card and the bounds of its payment agree: a cost
/// is payable exactly when some choice within the bounds that the formulas
/// give pays it.
pub proof fn lemma_payable_iff_bounds_can_pay(
    split: CostSplit,
    cost: nat,
    hand_available: nat,
    lx_remaining: nat,
    jq_available: nat,
)
    requires
        split.is_split_of(cost as int, hand_available as int, lx_remaining as int, jq_available as int),
    ensures
        payable(cost as int, hand_available as int, lx_remaining as int, jq_available as int)
            <==> split.can_pay(cost as int),
{
    if payable(cost as int, hand_available as int, lx_remaining as int, jq_available as int) {
        lemma_payable_split(split, cost, hand_available, lx_remaining, jq_available);
    } else {
        lemma_unpayable_split(split, cost, hand_available, lx_remaining, jq_available);
    }
}

/// A cost above the cards of the hand and of the passion zone together is
/// never payable, whatever the reason zone has free.
pub proof fn lemma_beyond_both_pools(cost: nat, hand_available: nat, lx_remaining: nat, jq_available: nat)
    requires
        cost > hand_available + jq_available,
    ensures
        !payable(cost as int, hand_available as int, lx_remaining as int, jq_available as int),
{
}

} // verus!
