//! Which cards may be set, on which zones, and what a drop of a card on a
//! zone leads to.

use vstd::prelude::*;
use crate::card_info::card_enums::CardType;
use crate::card_info::CardInfo;
use crate::cost_split::{
    allocate, hand_max_of, hand_min_of, is_eligible, jq_max_of, jq_min_of, lx_left, lx_remaining,
    payable,
};
use crate::error::PlacementError;
use crate::pool::{list_contains, EntityId, Pool};
use crate::text::{set_card_text, set_card_title};
use crate::ui::{ShowDialogBox, ZoneAndLimit};

verus! {

/// The categories of card that may be set on a zone.
#[derive(Clone, Debug)]
pub struct CanSetOn(pub Vec<CardType>);

impl CanSetOn {
    /// Whether the zone takes cards of the category `card_type`.
    pub fn accepts(&self, card_type: CardType) -> (yes: bool)
        ensures
            yes == self.0@.contains(card_type),
    {
        let mut i: usize = 0;
        while i < self.0.len()
            invariant
                i <= self.0.len(),
                forall|k: int| 0 <= k < i ==> self.0@[k] != card_type,
            decreases self.0.len() - i,
        {
            if self.0[i] == card_type {
                return true;
            }
            i += 1;
        }
        false
    }
}

/// How many cards a zone takes.
#[derive(Clone, Copy, Debug, PartialEq, Eq, Structural)]
pub enum Occupancy {
    /// One card: no second card is set while one is there.
    Single,
    /// Any number of cards.
    Unbounded,
}

impl Occupancy {
    /// The occupancy of a zone by what it takes: a zone that takes actors
    /// holds a single card, any other zone any number.
    pub open spec fn spec_of(can_set_on: CanSetOn) -> Occupancy {
        if can_set_on.0@.contains(CardType::Actor) {
            Occupancy::Single
        } else {
            Occupancy::Unbounded
        }
    }

    /// The occupancy of a zone by what it takes.
    pub fn of(can_set_on: &CanSetOn) -> (occupancy: Occupancy)
        ensures
            occupancy == Occupancy::spec_of(*can_set_on),
    {
        if can_set_on.accepts(CardType::Actor) {
            Occupancy::Single
        } else {
            Occupancy::Unbounded
        }
    }
}

/// A zone of the field on which cards are set.
#[derive(Clone, Debug)]
pub struct FieldZone {
    /// The entity of the zone.
    pub entity: EntityId,
    /// The categories that the zone takes.
    pub can_set_on: CanSetOn,
    /// How many cards the zone takes.
    pub occupancy: Occupancy,
    /// The cards on the zone.
    pub card_list: Vec<EntityId>,
}

/// A card in play: its entity and what is printed on it.
#[derive(Clone, Debug)]
pub struct CardRef {
    /// The entity of the card.
    pub entity: EntityId,
    /// What is printed on the card.
    pub info: CardInfo,
}

/// Whether a card may be marked as one that can be set: an arcane card never
/// is; any other card is when its cost can be paid.
pub open spec fn settable(
    card_type: CardType,
    cost: int,
    hand_num: int,
    lx_remain: int,
    jq: int,
) -> bool {
    card_type != CardType::Arcane && payable(cost, hand_num, lx_remain, jq)
}

/// Whether a card may be marked as one that can be set.
pub fn can_set(info: &CardInfo, hand_num: usize, lx_remain: usize, jq: usize) -> (yes: bool)
    ensures
        yes == settable(info.card_type, info.cost as int, hand_num as int, lx_remain as int, jq as int),
{
    match info.card_type {
        CardType::Arcane => false,
        _ => is_eligible(info.cost, hand_num, lx_remain, jq),
    }
}

/// The test for a card that may be marked.
pub open spec fn marked(hand_num: int, lx_remain: int, jq: int) -> spec_fn(CardRef) -> bool {
    |c: CardRef| settable(c.info.card_type, c.info.cost as int, hand_num, lx_remain, jq)
}

/// The entity of a card.
pub open spec fn entity_of() -> spec_fn(CardRef) -> EntityId {
    |c: CardRef| c.entity
}

/// The cards of `list` that are marked, in the order of the list.
pub open spec fn marks_in(list: Seq<CardRef>, hand_num: int, lx_remain: int, jq: int) -> Seq<EntityId> {
    list.filter(marked(hand_num, lx_remain, jq)).map_values(entity_of())
}

/// The cards of `list` that receive the can-set mark; the others lose it.
pub fn match_can_set(list: &Vec<CardRef>, hand_num: usize, lx_remain: usize, jq: usize) -> (marks: Vec<
    EntityId,
>)
    ensures
        marks@ == marks_in(list@, hand_num as int, lx_remain as int, jq as int),
{
    let ghost pred = marked(hand_num as int, lx_remain as int, jq as int);
    let mut marks: Vec<EntityId> = Vec::new();
    let mut i: usize = 0;
    proof {
        reveal(Seq::filter);
        assert(list@.take(0) =~= Seq::<CardRef>::empty());
        assert(marks@ =~= list@.take(0).filter(pred).map_values(entity_of()));
    }
    while i < list.len()
        invariant
            i <= list.len(),
            pred == marked(hand_num as int, lx_remain as int, jq as int),
            marks@ == list@.take(i as int).filter(pred).map_values(entity_of()),
        decreases list.len() - i,
    {
        let yes: bool = can_set(&list[i].info, hand_num, lx_remain, jq);
        proof {
            let before = list@.take(i as int);
            let c = list@[i as int];
            assert(list@.take(i + 1) =~= before.push(c));
            before.lemma_filter_push(c, pred);
            if yes {
                assert(before.filter(pred).push(c).map_values(entity_of()) =~= marks@.push(c.entity));
            }
        }
        if yes {
            marks.push(list[i].entity);
        }
        i += 1;
    }
    proof {
        assert(list@.take(i as int) =~= list@);
    }
    marks
}

/// The cards that can be set right now. A card of the hand is paid for by
/// the rest of the hand; a card of the reason zone by the whole hand.
pub open spec fn highlighted(hand: Seq<CardRef>, lx: Seq<CardRef>, jq: int) -> Seq<EntityId> {
    marks_in(hand, hand.len() - 1, lx_left(lx.len() as int), jq) + marks_in(
        lx,
        hand.len() as int,
        lx_left(lx.len() as int),
        jq,
    )
}

/// The cards of the hand and of the reason zone that receive the can-set
/// mark, given the cards of both and the number of cards in the passion
/// zone.
pub fn on_click_highlight(hand: &Vec<CardRef>, lx: &Vec<CardRef>, jq: usize) -> (marks: Vec<EntityId>)
    ensures
        marks@ == highlighted(hand@, lx@, jq as int),
{
    let lx_remain: usize = lx_remaining(lx.len());
    let hand_num: usize = hand.len();
    let mut marks: Vec<EntityId> = if hand_num > 0 {
        match_can_set(hand, hand_num - 1, lx_remain, jq)
    } else {
        proof {
            reveal(Seq::filter);
        }
        Vec::new()
    };
    let mut more = match_can_set(lx, hand_num, lx_remain, jq);
    marks.append(&mut more);
    proof {
        assert(marks@ =~= highlighted(hand@, lx@, jq as int));
    }
    marks
}

/// The test for a zone that takes cards of the category `card_type`.
pub open spec fn taking(card_type: CardType) -> spec_fn(FieldZone) -> bool {
    |z: FieldZone| z.can_set_on.0@.contains(card_type)
}

/// The entity of a zone.
pub open spec fn zone_entity() -> spec_fn(FieldZone) -> EntityId {
    |z: FieldZone| z.entity
}

/// The zones that light up while `card` is dragged: those that take its
/// category if the card bears the can-set mark, and none if it does not.
pub open spec fn drag_targets(
    marks: Seq<EntityId>,
    card: EntityId,
    card_type: CardType,
    zones: Seq<FieldZone>,
) -> Seq<EntityId> {
    if marks.contains(card) {
        zones.filter(taking(card_type)).map_values(zone_entity())
    } else {
        Seq::<EntityId>::empty()
    }
}

/// The zones to light up when the player starts to drag `card`.
pub fn on_drag_start(marks: &Vec<EntityId>, card: EntityId, info: &CardInfo, zones: &Vec<FieldZone>) -> (lit: Vec<
    EntityId,
>)
    ensures
        lit@ == drag_targets(marks@, card, info.card_type, zones@),
{
    let mut lit: Vec<EntityId> = Vec::new();
    if !list_contains(marks, card) {
        return lit;
    }
    let ghost pred = taking(info.card_type);
    let mut i: usize = 0;
    proof {
        reveal(Seq::filter);
        assert(zones@.take(0) =~= Seq::<FieldZone>::empty());
        assert(lit@ =~= zones@.take(0).filter(pred).map_values(zone_entity()));
    }
    while i < zones.len()
        invariant
            i <= zones.len(),
            pred == taking(info.card_type),
            lit@ == zones@.take(i as int).filter(pred).map_values(zone_entity()),
        decreases zones.len() - i,
    {
        let yes: bool = zones[i].can_set_on.accepts(info.card_type);
        proof {
            let before = zones@.take(i as int);
            let z = zones@[i as int];
            assert(zones@.take(i + 1) =~= before.push(z));
            before.lemma_filter_push(z, pred);
            if yes {
                assert(before.filter(pred).push(z).map_values(zone_entity()) =~= lit@.push(z.entity));
            }
        }
        if yes {
            lit.push(zones[i].entity);
        }
        i += 1;
    }
    proof {
        assert(zones@.take(i as int) =~= zones@);
    }
    lit
}

/// The zones whose light goes out when the player lets go of `card`: the
/// very zones that lit up when the drag began.
pub fn on_drag_end(marks: &Vec<EntityId>, card: EntityId, info: &CardInfo, zones: &Vec<FieldZone>) -> (unlit: Vec<
    EntityId,
>)
    ensures
        unlit@ == drag_targets(marks@, card, info.card_type, zones@),
{
    on_drag_start(marks, card, info, zones)
}

/// Why a drop is turned down, if it is. The checks are made in this order:
/// the zone must take the card's category; a zone for a single card must be
/// free; the card must not be arcane; and the cost must be payable.
pub open spec fn rejection(
    card_type: CardType,
    cost: int,
    zone: FieldZone,
    hand_available: int,
    lx_remain: int,
    jq_available: int,
) -> Option<PlacementError> {
    if !zone.can_set_on.0@.contains(card_type) {
        Some(PlacementError::IneligibleCategory)
    } else if zone.occupancy == Occupancy::Single && zone.card_list@.len() > 0 {
        Some(PlacementError::OccupancyBlocked)
    } else if card_type == CardType::Arcane {
        Some(PlacementError::PaymentUndefined)
    } else if !payable(cost, hand_available, lx_remain, jq_available) {
        Some(PlacementError::Unsatisfiable)
    } else {
        None
    }
}

/// The mark and the drop follow one rule: on a zone that takes the card's
/// category and has room for it, a drop is accepted exactly when the card
/// may bear the can-set mark for the same numbers.
pub proof fn lemma_mark_agrees_with_drop(
    card_type: CardType,
    cost: nat,
    zone: FieldZone,
    hand_available: int,
    lx_remain: int,
    jq_available: int,
)
    requires
        zone.can_set_on.0@.contains(card_type),
        zone.occupancy == Occupancy::Single ==> zone.card_list@.len() == 0,
    ensures
        settable(card_type, cost as int, hand_available, lx_remain, jq_available) <==> rejection(
            card_type,
            cost as int,
            zone,
            hand_available,
            lx_remain,
            jq_available,
        ) is None,
{
}

/// The request that asks for the payment of `cost` for `card`: the title
/// that names the card and its cost, the bounds of the hand and of the
/// passion zone by the formulas, and the cost as the number to choose in all.
pub open spec fn is_request_for(
    request: ShowDialogBox,
    card: EntityId,
    name: Seq<char>,
    cost: nat,
    hand: Pool,
    lx: Pool,
    jq: Pool,
) -> bool {
    let c = cost as int;
    let h = hand.spec_available_to(card);
    let m = lx_left(lx.card_list@.len() as int);
    let j = jq.card_list@.len() as int;
    &&& request.card == card
    &&& request.text@ == set_card_text(name, cost)
    &&& request.min == cost
    &&& request.max == cost
    &&& request.hand_list@.len() == 1
    &&& request.hand_list@[0].entity == hand.entity
    &&& request.hand_list@[0].min == hand_min_of(c, h, m, j)
    &&& request.hand_list@[0].max == hand_max_of(c, h, m)
    &&& request.zone_list@.len() == 1
    &&& request.zone_list@[0].entity == jq.entity
    &&& request.zone_list@[0].min == jq_min_of(c, h, m)
    &&& request.zone_list@[0].max == jq_max_of(c, j)
}

/// A request for a payable cost can be met: in each of the two pools the
/// least is at most the most, which is at most the number of cards that the
/// pool offers; the two least together do not exceed the cost, and the two
/// most together reach it.
pub proof fn lemma_request_is_sound(
    request: ShowDialogBox,
    card: EntityId,
    name: Seq<char>,
    cost: nat,
    hand: Pool,
    lx: Pool,
    jq: Pool,
)
    requires
        is_request_for(request, card, name, cost, hand, lx, jq),
        payable(
            cost as int,
            hand.spec_available_to(card),
            lx_left(lx.card_list@.len() as int),
            jq.card_list@.len() as int,
        ),
    ensures
        request.hand_list@[0].min <= request.hand_list@[0].max <= hand.spec_available_to(card),
        request.zone_list@[0].min <= request.zone_list@[0].max <= jq.card_list@.len(),
        request.hand_list@[0].min + request.zone_list@[0].min <= request.min,
        request.max <= request.hand_list@[0].max + request.zone_list@[0].max,
{
}

/// A card has been dropped on a zone. The drop is turned down for the first
/// reason that [`rejection`] finds; otherwise the request for the payment is
/// returned. Nothing is changed either way.
pub fn card_on_zone(
    card: EntityId,
    info: &CardInfo,
    zone: &FieldZone,
    hand: &Pool,
    lx: &Pool,
    jq: &Pool,
) -> (r: Result<ShowDialogBox, PlacementError>)
    ensures
        match r {
            Ok(request) => rejection(
                info.card_type,
                info.cost as int,
                *zone,
                hand.spec_available_to(card),
                lx_left(lx.card_list@.len() as int),
                jq.card_list@.len() as int,
            ) is None && is_request_for(request, card, info.name@, info.cost as nat, *hand, *lx, *jq),
            Err(e) => rejection(
                info.card_type,
                info.cost as int,
                *zone,
                hand.spec_available_to(card),
                lx_left(lx.card_list@.len() as int),
                jq.card_list@.len() as int,
            ) == Some(e),
        },
{
    if !zone.can_set_on.accepts(info.card_type) {
        return Err(PlacementError::IneligibleCategory);
    }
    if zone.occupancy == Occupancy::Single && zone.card_list.len() > 0 {
        return Err(PlacementError::OccupancyBlocked);
    }
    if info.card_type == CardType::Arcane {
        return Err(PlacementError::PaymentUndefined);
    }
    let hand_num: usize = hand.available_to(card);
    let lx_remain: usize = lx_remaining(lx.card_list.len());
    let jq_num: usize = jq.card_list.len();
    match allocate(info.cost, hand_num, lx_remain, jq_num) {
        Ok(split) => {
            let mut zone_list: Vec<ZoneAndLimit> = Vec::new();
            zone_list.push(ZoneAndLimit { entity: jq.entity, min: split.jq.min, max: split.jq.max });
            let mut hand_list: Vec<ZoneAndLimit> = Vec::new();
            hand_list.push(
                ZoneAndLimit { entity: hand.entity, min: split.hand.min, max: split.hand.max },
            );
            let text = set_card_title(info.name.as_str(), info.cost);
            Ok(ShowDialogBox { card, text, zone_list, hand_list, min: info.cost, max: info.cost })
        },
        Err(e) => Err(e),
    }
}

} // verus!
