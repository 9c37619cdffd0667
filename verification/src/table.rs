//! The table of one player: the pools, the one selection that may be open,
//! and the signals that move a card from a drop to a confirmed placement.
//!
//! Only a confirmed placement and the draw moves change a pool. A drop, a
//! click in the dialog and a cancellation leave every pool as it was.

use vstd::prelude::*;
use crate::card_info::CardInfo;
use crate::card_zone::can_set::{card_on_zone, is_request_for, rejection, FieldZone, Occupancy};
use crate::cost_split::{lx_left, LX_CEILING};
use crate::error::PlacementError;
use crate::pool::{list_contains, pairs_contain, EntityId, Pool, ZoneCardPair};
use crate::ui::{dialog_candidates, toggled, EnterEvent, SelectionSession, UICardInfo};

verus! {

/// The test for a card that stays in the pool `zone` when `card` is set and
/// paid for by the listed pairs: any card but `card` itself and those listed
/// with this pool.
pub open spec fn stays(
    zone: EntityId,
    card: EntityId,
    cost_hand: Seq<ZoneCardPair>,
    cost_jq: Seq<ZoneCardPair>,
) -> spec_fn(EntityId) -> bool {
    |e: EntityId| e != card && !cost_hand.contains((zone, e)) && !cost_jq.contains((zone, e))
}

/// The cards that stay in `pool`, in their order.
pub open spec fn remaining(
    pool: Pool,
    card: EntityId,
    cost_hand: Seq<ZoneCardPair>,
    cost_jq: Seq<ZoneCardPair>,
) -> Seq<EntityId> {
    pool.card_list@.filter(stays(pool.entity, card, cost_hand, cost_jq))
}

/// A placement takes from a pool exactly the card that is set and the cards
/// that pay from this pool: every other card of the pool stays, and nothing
/// is added.
pub proof fn lemma_only_paid_cards_leave(
    pool: Pool,
    card: EntityId,
    cost_hand: Seq<ZoneCardPair>,
    cost_jq: Seq<ZoneCardPair>,
    e: EntityId,
)
    ensures
        remaining(pool, card, cost_hand, cost_jq).contains(e) <==> pool.card_list@.contains(e) && e
            != card && !cost_hand.contains((pool.entity, e)) && !cost_jq.contains((pool.entity, e)),
{
    let pred = stays(pool.entity, card, cost_hand, cost_jq);
    let kept = remaining(pool, card, cost_hand, cost_jq);
    if kept.contains(e) {
        pool.card_list@.lemma_filter_contains_rev(pred, e);
        let i = choose|i: int| 0 <= i < kept.len() && kept[i] == e;
        pool.card_list@.lemma_filter_pred(pred, i);
    }
    if pool.card_list@.contains(e) && pred(e) {
        let i = choose|i: int| 0 <= i < pool.card_list@.len() && pool.card_list@[i] == e;
        pool.card_list@.lemma_filter_contains(pred, i);
    }
}

impl Pool {
    /// Takes out of the pool the card that is set and the cards that pay
    /// from this pool.
    pub fn settle(&mut self, card: EntityId, cost_hand: &Vec<ZoneCardPair>, cost_jq: &Vec<ZoneCardPair>)
        ensures
            final(self).entity == old(self).entity,
            final(self).card_list@ == remaining(*old(self), card, cost_hand@, cost_jq@),
    {
        let ghost pred = stays(self.entity, card, cost_hand@, cost_jq@);
        let mut kept: Vec<EntityId> = Vec::new();
        let mut i: usize = 0;
        proof {
            reveal(Seq::filter);
            assert(self.card_list@.take(0) =~= Seq::<EntityId>::empty());
        }
        while i < self.card_list.len()
            invariant
                i <= self.card_list.len(),
                *self == *old(self),
                pred == stays(self.entity, card, cost_hand@, cost_jq@),
                kept@ == self.card_list@.take(i as int).filter(pred),
            decreases self.card_list.len() - i,
        {
            let e: EntityId = self.card_list[i];
            proof {
                assert(self.card_list@.take(i + 1) =~= self.card_list@.take(i as int).push(e));
                self.card_list@.take(i as int).lemma_filter_push(e, pred);
            }
            if e != card && !pairs_contain(cost_hand, self.entity, e) && !pairs_contain(
                cost_jq,
                self.entity,
                e,
            ) {
                kept.push(e);
            }
            i += 1;
        }
        proof {
            assert(self.card_list@.take(i as int) =~= self.card_list@);
        }
        self.card_list = kept;
    }
}

/// Whether every listed pair names a card that lies in the pool it is listed
/// with, the pool being the hand or the passion zone.
pub open spec fn pairs_live(pairs: Seq<ZoneCardPair>, hand: Pool, jq: Pool) -> bool {
    forall|i: int|
        0 <= i < pairs.len() ==> {
            ||| (#[trigger] pairs[i]).0 == hand.entity && hand.card_list@.contains(pairs[i].1)
            ||| pairs[i].0 == jq.entity && jq.card_list@.contains(pairs[i].1)
        }
}

/// Whether every listed pair names a card that lies in the pool it is listed
/// with.
pub fn all_live(pairs: &Vec<ZoneCardPair>, hand: &Pool, jq: &Pool) -> (live: bool)
    ensures
        live == pairs_live(pairs@, *hand, *jq),
{
    let mut i: usize = 0;
    while i < pairs.len()
        invariant
            i <= pairs.len(),
            forall|k: int|
                0 <= k < i ==> {
                    ||| (#[trigger] pairs@[k]).0 == hand.entity && hand.card_list@.contains(pairs@[k].1)
                    ||| pairs@[k].0 == jq.entity && jq.card_list@.contains(pairs@[k].1)
                },
        decreases pairs.len() - i,
    {
        let zone: EntityId = pairs[i].0;
        let card: EntityId = pairs[i].1;
        let in_hand: bool = zone == hand.entity && list_contains(&hand.card_list, card);
        let in_jq: bool = zone == jq.entity && list_contains(&jq.card_list, card);
        if !in_hand && !in_jq {
            return false;
        }
        i += 1;
    }
    true
}

/// The number of cards up to which the passion zone is filled from the deck.
pub const JQ_CEILING: usize = 6;

/// Whether a zone has room for one more card.
pub open spec fn has_room(zone: FieldZone) -> bool {
    zone.occupancy == Occupancy::Single ==> zone.card_list@.len() == 0
}

/// The pools of one player and the selection that is open, if any.
#[derive(Clone, Debug)]
pub struct Table {
    /// The hand.
    pub hand: Pool,
    /// The reason zone, which takes the cards that the hand pays with.
    pub lx: Pool,
    /// The passion zone.
    pub jq: Pool,
    /// The deck.
    pub desk: Pool,
    /// The selection that is open, if any.
    pub session: Option<SelectionSession>,
}

impl Table {
    /// A table with four empty pools and no selection open.
    pub fn new(hand: EntityId, lx: EntityId, jq: EntityId, desk: EntityId) -> (table: Table)
        ensures
            table.hand.entity == hand && table.hand.card_list@.len() == 0,
            table.lx.entity == lx && table.lx.card_list@.len() == 0,
            table.jq.entity == jq && table.jq.card_list@.len() == 0,
            table.desk.entity == desk && table.desk.card_list@.len() == 0,
            table.session is None,
    {
        Table {
            hand: Pool::new(hand),
            lx: Pool::new(lx),
            jq: Pool::new(jq),
            desk: Pool::new(desk),
            session: None,
        }
    }

    /// Whether the two tables hold the same cards in the same pools.
    pub open spec fn same_pools(self, other: Table) -> bool {
        &&& self.hand == other.hand
        &&& self.lx == other.lx
        &&& self.jq == other.jq
        &&& self.desk == other.desk
    }

    /// Why a drop of `card` on `zone` is turned down, if it is: because a
    /// selection is open, or else for the reason that [`rejection`] gives.
    pub open spec fn drop_rejection(self, card: EntityId, info: CardInfo, zone: FieldZone) -> Option<
        PlacementError,
    > {
        if self.session is Some {
            Some(PlacementError::SessionOpen)
        } else {
            rejection(
                info.card_type,
                info.cost as int,
                zone,
                self.hand.spec_available_to(card),
                lx_left(self.lx.card_list@.len() as int),
                self.jq.card_list@.len() as int,
            )
        }
    }

    /// The player has dropped `card` on `zone`. Where nothing speaks against
    /// it, the selection for the payment is opened with nothing chosen;
    /// otherwise the drop is turned down and the table stays as it was. No
    /// pool changes in either case.
    pub fn on_drop(&mut self, card: EntityId, info: &CardInfo, zone: &FieldZone) -> (r: Result<
        (),
        PlacementError,
    >)
        ensures
            final(self).same_pools(*old(self)),
            match r {
                Ok(()) => {
                    &&& old(self).drop_rejection(card, *info, *zone) is None
                    &&& final(self).session is Some
                    &&& is_request_for(
                        final(self).session->Some_0.request,
                        card,
                        info.name@,
                        info.cost as nat,
                        old(self).hand,
                        old(self).lx,
                        old(self).jq,
                    )
                    &&& final(self).session->Some_0.zone == zone.entity
                    &&& final(self).session->Some_0.candidates@ == dialog_candidates(
                        final(self).session->Some_0.request,
                        old(self).hand,
                        old(self).jq,
                    )
                    &&& final(self).session->Some_0.chosen@ == Seq::<UICardInfo>::empty()
                    &&& final(self).session->Some_0.wf()
                },
                Err(e) => old(self).drop_rejection(card, *info, *zone) == Some(e) && *final(self)
                    == *old(self),
            },
    {
        if self.session.is_some() {
            return Err(PlacementError::SessionOpen);
        }
        match card_on_zone(card, info, zone, &self.hand, &self.lx, &self.jq) {
            Ok(request) => {
                let session = SelectionSession::open(request, zone.entity, &self.hand, &self.jq);
                self.session = Some(session);
                Ok(())
            },
            Err(e) => Err(e),
        }
    }

    /// The player has clicked on `card` in the dialog: the open selection
    /// changes as [`toggled`] says. Without an open selection nothing
    /// happens. No pool changes.
    pub fn on_toggle(&mut self, card: EntityId)
        ensures
            final(self).same_pools(*old(self)),
            old(self).session is None ==> final(self).session is None,
            old(self).session is Some ==> {
                &&& final(self).session is Some
                &&& final(self).session->Some_0.request == old(self).session->Some_0.request
                &&& final(self).session->Some_0.zone == old(self).session->Some_0.zone
                &&& final(self).session->Some_0.candidates == old(self).session->Some_0.candidates
                &&& final(self).session->Some_0.button == old(self).session->Some_0.button
                &&& final(self).session->Some_0.chosen@ == toggled(
                    old(self).session->Some_0.candidates@,
                    old(self).session->Some_0.chosen@,
                    card,
                )
                &&& final(self).session->Some_0.valid == final(self).session->Some_0.button.enabled_by(
                    final(self).session->Some_0.chosen@,
                )
                &&& old(self).session->Some_0.wf() ==> final(self).session->Some_0.wf()
            },
    {
        match self.session.take() {
            Some(mut session) => {
                session.toggle(card);
                self.session = Some(session);
            },
            None => {},
        }
    }

    /// The player has cancelled: the open selection, if any, is dropped. No
    /// pool changes.
    pub fn on_cancel(&mut self)
        ensures
            final(self).same_pools(*old(self)),
            final(self).session is None,
    {
        self.session = None;
    }

    /// Whether a placement can be carried out on the table as it is now:
    /// every paying card lies in the pool it was chosen from, and the zone
    /// has room.
    pub open spec fn can_apply(self, event: EnterEvent, zone: FieldZone) -> bool {
        event is SetCard ==> {
            &&& pairs_live(event->cost_hand@, self.hand, self.jq)
            &&& pairs_live(event->cost_jq@, self.hand, self.jq)
            &&& has_room(zone)
        }
    }

    /// The table and the zone after the placement that `event` asks for.
    pub open spec fn applied(self, event: EnterEvent, zone: FieldZone, after: Table, zone_after: FieldZone) -> bool {
        match event {
            EnterEvent::Test => after == self && zone_after == zone,
            EnterEvent::SetCard { card, cost_hand, cost_jq } => {
                &&& after.session == self.session
                &&& after.hand.entity == self.hand.entity
                &&& after.lx.entity == self.lx.entity
                &&& after.jq.entity == self.jq.entity
                &&& after.desk.entity == self.desk.entity
                &&& after.hand.card_list@ == remaining(self.hand, card, cost_hand@, cost_jq@)
                &&& after.lx.card_list@ == remaining(self.lx, card, cost_hand@, cost_jq@)
                &&& after.jq.card_list@ == remaining(self.jq, card, cost_hand@, cost_jq@)
                &&& after.desk.card_list@ == remaining(self.desk, card, cost_hand@, cost_jq@)
                &&& zone_after.entity == zone.entity
                &&& zone_after.can_set_on == zone.can_set_on
                &&& zone_after.occupancy == zone.occupancy
                &&& zone_after.card_list@ == zone.card_list@.push(card)
            },
        }
    }

    /// Carries out a confirmed placement in one step. The conditions are
    /// looked at again on the table as it is now; where one fails, nothing
    /// at all is changed. Otherwise the paying cards leave their pools, the
    /// card leaves the pool it lies in, and the card is put on the zone.
    pub fn apply_commit(&mut self, event: &EnterEvent, zone: &mut FieldZone) -> (r: Result<
        (),
        PlacementError,
    >)
        ensures
            match r {
                Ok(()) => old(self).can_apply(*event, *old(zone)) && old(self).applied(
                    *event,
                    *old(zone),
                    *final(self),
                    *final(zone),
                ),
                Err(e) => e == PlacementError::InvalidSelection && !old(self).can_apply(
                    *event,
                    *old(zone),
                ) && *final(self) == *old(self) && *final(zone) == *old(zone),
            },
    {
        match event {
            EnterEvent::Test => Ok(()),
            EnterEvent::SetCard { card, cost_hand, cost_jq } => {
                let room: bool = match zone.occupancy {
                    Occupancy::Single => zone.card_list.len() == 0,
                    Occupancy::Unbounded => true,
                };
                if !room || !all_live(cost_hand, &self.hand, &self.jq) || !all_live(
                    cost_jq,
                    &self.hand,
                    &self.jq,
                ) {
                    return Err(PlacementError::InvalidSelection);
                }
                self.hand.settle(*card, cost_hand, cost_jq);
                self.lx.settle(*card, cost_hand, cost_jq);
                self.jq.settle(*card, cost_hand, cost_jq);
                self.desk.settle(*card, cost_hand, cost_jq);
                zone.card_list.push(*card);
                Ok(())
            },
        }
    }

    /// Whether the open selection can be confirmed for `zone`: there is one,
    /// it was opened for this zone, it enables the confirm button, and the
    /// placement it asks for can be carried out.
    pub open spec fn can_commit(self, zone: FieldZone) -> bool {
        &&& self.session is Some
        &&& self.session->Some_0.zone == zone.entity
        &&& self.session->Some_0.button.enabled_by(self.session->Some_0.chosen@)
        &&& pairs_live(self.session->Some_0.outcome().1, self.hand, self.jq)
        &&& pairs_live(self.session->Some_0.outcome().2, self.hand, self.jq)
        &&& has_room(zone)
    }

    /// The player has confirmed. Where the selection can be confirmed, the
    /// placement is carried out, the selection is closed, and what was done
    /// is returned. Otherwise the confirmation is refused as
    /// `InvalidSelection`, and the table, the open selection and the zone
    /// stay as they were.
    pub fn on_commit(&mut self, zone: &mut FieldZone) -> (r: Result<EnterEvent, PlacementError>)
        ensures
            match r {
                Ok(event) => {
                    &&& old(self).can_commit(*old(zone))
                    &&& event is SetCard
                    &&& (event->card, event->cost_hand@, event->cost_jq@)
                        == old(self).session->Some_0.outcome()
                    &&& final(self).session is None
                    &&& final(self).hand.entity == old(self).hand.entity
                    &&& final(self).lx.entity == old(self).lx.entity
                    &&& final(self).jq.entity == old(self).jq.entity
                    &&& final(self).desk.entity == old(self).desk.entity
                    &&& final(self).hand.card_list@ == remaining(
                        old(self).hand,
                        event->card,
                        event->cost_hand@,
                        event->cost_jq@,
                    )
                    &&& final(self).lx.card_list@ == remaining(
                        old(self).lx,
                        event->card,
                        event->cost_hand@,
                        event->cost_jq@,
                    )
                    &&& final(self).jq.card_list@ == remaining(
                        old(self).jq,
                        event->card,
                        event->cost_hand@,
                        event->cost_jq@,
                    )
                    &&& final(self).desk.card_list@ == remaining(
                        old(self).desk,
                        event->card,
                        event->cost_hand@,
                        event->cost_jq@,
                    )
                    &&& final(zone).entity == old(zone).entity
                    &&& final(zone).can_set_on == old(zone).can_set_on
                    &&& final(zone).occupancy == old(zone).occupancy
                    &&& final(zone).card_list@ == old(zone).card_list@.push(event->card)
                },
                Err(e) => e == PlacementError::InvalidSelection && !old(self).can_commit(*old(zone))
                    && *final(self) == *old(self) && *final(zone) == *old(zone),
            },
    {
        let event: EnterEvent = match &self.session {
            None => {
                return Err(PlacementError::InvalidSelection);
            },
            Some(session) => {
                if session.zone != zone.entity {
                    return Err(PlacementError::InvalidSelection);
                }
                match session.commit() {
                    Ok(event) => event,
                    Err(e) => {
                        return Err(e);
                    },
                }
            },
        };
        match self.apply_commit(&event, zone) {
            Ok(()) => {
                self.session = None;
                Ok(event)
            },
            Err(e) => Err(e),
        }
    }

    /// Draws the top card of the deck into the hand; with an empty deck
    /// nothing happens. The card drawn is returned.
    pub fn on_click_draw(&mut self) -> (drawn: Option<EntityId>)
        ensures
            final(self).lx == old(self).lx,
            final(self).jq == old(self).jq,
            final(self).session == old(self).session,
            final(self).hand.entity == old(self).hand.entity,
            final(self).desk.entity == old(self).desk.entity,
            old(self).desk.card_list@.len() == 0 ==> drawn is None && *final(self) == *old(self),
            old(self).desk.card_list@.len() > 0 ==> {
                &&& drawn == Some(old(self).desk.card_list@.last())
                &&& final(self).desk.card_list@ == old(self).desk.card_list@.drop_last()
                &&& final(self).hand.card_list@ == old(self).hand.card_list@.push(
                    old(self).desk.card_list@.last(),
                )
            },
    {
        if self.desk.card_list.len() == 0 {
            return None;
        }
        match self.desk.card_list.pop() {
            Some(card) => {
                self.hand.card_list.push(card);
                Some(card)
            },
            None => None,
        }
    }

    /// Moves the last card of the hand into the reason zone, if the hand
    /// has a card and the reason zone a free slot; otherwise nothing
    /// happens. The card moved is returned.
    pub fn put_hand_in_lx(&mut self) -> (moved: Option<EntityId>)
        ensures
            final(self).jq == old(self).jq,
            final(self).desk == old(self).desk,
            final(self).session == old(self).session,
            final(self).hand.entity == old(self).hand.entity,
            final(self).lx.entity == old(self).lx.entity,
            !(old(self).hand.card_list@.len() > 0 && old(self).lx.card_list@.len() < LX_CEILING)
                ==> moved is None && *final(self) == *old(self),
            old(self).hand.card_list@.len() > 0 && old(self).lx.card_list@.len() < LX_CEILING ==> {
                &&& moved == Some(old(self).hand.card_list@.last())
                &&& final(self).hand.card_list@ == old(self).hand.card_list@.drop_last()
                &&& final(self).lx.card_list@ == old(self).lx.card_list@.push(
                    old(self).hand.card_list@.last(),
                )
            },
    {
        if self.hand.card_list.len() > 0 && self.lx.card_list.len() < LX_CEILING {
            match self.hand.card_list.pop() {
                Some(card) => {
                    self.lx.card_list.push(card);
                    Some(card)
                },
                None => None,
            }
        } else {
            None
        }
    }

    /// Moves the top card of the deck into the passion zone, if the deck
    /// has a card and the passion zone holds fewer than six; otherwise
    /// nothing happens. The card moved is returned.
    pub fn put_desk_in_jq(&mut self) -> (moved: Option<EntityId>)
        ensures
            final(self).hand == old(self).hand,
            final(self).lx == old(self).lx,
            final(self).session == old(self).session,
            final(self).desk.entity == old(self).desk.entity,
            final(self).jq.entity == old(self).jq.entity,
            !(old(self).desk.card_list@.len() > 0 && old(self).jq.card_list@.len() < JQ_CEILING)
                ==> moved is None && *final(self) == *old(self),
            old(self).desk.card_list@.len() > 0 && old(self).jq.card_list@.len() < JQ_CEILING ==> {
                &&& moved == Some(old(self).desk.card_list@.last())
                &&& final(self).desk.card_list@ == old(self).desk.card_list@.drop_last()
                &&& final(self).jq.card_list@ == old(self).jq.card_list@.push(
                    old(self).desk.card_list@.last(),
                )
            },
    {
        if self.jq.card_list.len() < JQ_CEILING && self.desk.card_list.len() > 0 {
            match self.desk.card_list.pop() {
                Some(card) => {
                    self.jq.card_list.push(card);
                    Some(card)
                },
                None => None,
            }
        } else {
            None
        }
    }
}

/// How a card lies: face up or down, upright or turned.
#[derive(Clone, Copy, Debug, PartialEq, Eq, Structural)]
pub struct CardState {
    pub face_up: bool,
    pub vertical: bool,
}

/// A card of the reason zone and how it lies.
#[derive(Clone, Copy, Debug, PartialEq, Eq)]
pub struct LxCard {
    pub entity: EntityId,
    pub state: CardState,
}

/// The test for a card that lies upright, or for one that does not.
pub open spec fn lying(vertical: bool) -> spec_fn(LxCard) -> bool {
    |c: LxCard| c.state.vertical == vertical
}

/// The entity of a card of the reason zone.
pub open spec fn lx_entity() -> spec_fn(LxCard) -> EntityId {
    |c: LxCard| c.entity
}

/// The cards of `lx` that lie upright, or those that do not, in order.
pub open spec fn lx_cards_lying(lx: Seq<LxCard>, vertical: bool) -> Seq<EntityId> {
    lx.filter(lying(vertical)).map_values(lx_entity())
}

/// The cards of `lx` that lie upright, or those that do not, in order.
pub fn cards_lying(lx: &Vec<LxCard>, vertical: bool) -> (cards: Vec<EntityId>)
    ensures
        cards@ == lx_cards_lying(lx@, vertical),
{
    let mut cards: Vec<EntityId> = Vec::new();
    let mut i: usize = 0;
    proof {
        reveal(Seq::filter);
        assert(lx@.take(0) =~= Seq::<LxCard>::empty());
        assert(cards@ =~= lx_cards_lying(lx@.take(0), vertical));
    }
    while i < lx.len()
        invariant
            i <= lx.len(),
            cards@ == lx_cards_lying(lx@.take(i as int), vertical),
        decreases lx.len() - i,
    {
        let c: LxCard = lx[i];
        proof {
            let before = lx@.take(i as int);
            assert(lx@.take(i + 1) =~= before.push(c));
            before.lemma_filter_push(c, lying(vertical));
            if c.state.vertical == vertical {
                assert(before.filter(lying(vertical)).push(c).map_values(lx_entity()) =~= cards@.push(
                    c.entity,
                ));
            }
        }
        if c.state.vertical == vertical {
            cards.push(c.entity);
        }
        i += 1;
    }
    proof {
        assert(lx@.take(i as int) =~= lx@);
    }
    cards
}

/// What becomes of the cards of the reason zone when the turn changes.
#[derive(Clone, Debug)]
pub struct LxChange {
    /// The cards that go back to the hand: those that lay upright.
    pub to_hand: Vec<EntityId>,
    /// The cards that stay and are stood up, face up: those that lay turned.
    pub to_stand: Vec<EntityId>,
    /// How the cards that stay lie from now on.
    pub state: CardState,
}

/// Sorts the cards of the reason zone at the change of the turn: an upright
/// card goes back to the hand, a turned card is stood up again, face up.
pub fn change_all_lx(lx: &Vec<LxCard>) -> (change: LxChange)
    ensures
        change.to_hand@ == lx_cards_lying(lx@, true),
        change.to_stand@ == lx_cards_lying(lx@, false),
        change.state == (CardState { face_up: true, vertical: true }),
{
    LxChange {
        to_hand: cards_lying(lx, true),
        to_stand: cards_lying(lx, false),
        state: CardState { face_up: true, vertical: true },
    }
}

} // verus!
