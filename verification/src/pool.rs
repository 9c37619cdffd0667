//! Pools of cards: the hand, the reason zone, the passion zone, the deck.

use vstd::prelude::*;

verus! {

/// The identity of a game entity: a card, a zone or a hand.
pub type EntityId = u64;

/// A card together with the pool it was taken from: the pool first.
pub type ZoneCardPair = (EntityId, EntityId);

/// Whether `card` occurs in `list`.
pub fn list_contains(list: &Vec<EntityId>, card: EntityId) -> (found: bool)
    ensures
        found == list@.contains(card),
{
    let mut i: usize = 0;
    while i < list.len()
        invariant
            i <= list.len(),
            forall|k: int| 0 <= k < i ==> list@[k] != card,
        decreases list.len() - i,
    {
        if list[i] == card {
            return true;
        }
        i += 1;
    }
    false
}

/// Whether the pair of `zone` and `card` occurs in `pairs`.
pub fn pairs_contain(pairs: &Vec<ZoneCardPair>, zone: EntityId, card: EntityId) -> (found: bool)
    ensures
        found == pairs@.contains((zone, card)),
{
    let mut i: usize = 0;
    while i < pairs.len()
        invariant
            i <= pairs.len(),
            forall|k: int| 0 <= k < i ==> pairs@[k] != (zone, card),
        decreases pairs.len() - i,
    {
        if pairs[i].0 == zone && pairs[i].1 == card {
            return true;
        }
        i += 1;
    }
    false
}

/// An ordered pool of cards under the entity that names it.
#[derive(Debug, Clone)]
pub struct Pool {
    /// The entity of the pool itself.
    pub entity: EntityId,
    /// The cards in the pool, in order.
    pub card_list: Vec<EntityId>,
}

impl Pool {
    /// An empty pool.
    pub fn new(entity: EntityId) -> (pool: Pool)
        ensures
            pool.entity == entity,
            pool.card_list@ == Seq::<EntityId>::empty(),
    {
        Pool { entity, card_list: Vec::new() }
    }

    /// How many cards of the pool are free to pay for `card`: all of them,
    /// less the card itself where it lies in this pool.
    pub open spec fn spec_available_to(self, card: EntityId) -> int {
        if self.card_list@.contains(card) {
            self.card_list@.len() - 1
        } else {
            self.card_list@.len() as int
        }
    }

    /// How many cards of the pool are free to pay for `card`.
    pub fn available_to(&self, card: EntityId) -> (n: usize)
        ensures
            n == self.spec_available_to(card),
    {
        if list_contains(&self.card_list, card) {
            self.card_list.len() - 1
        } else {
            self.card_list.len()
        }
    }
}

} // verus!
