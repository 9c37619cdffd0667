//! The selection dialog: the request that opens it, the candidates it
//! offers, the player's running selection and the confirm button that the
//! selection enables.

use vstd::prelude::*;
use crate::error::PlacementError;
use crate::pool::{EntityId, Pool, ZoneCardPair};

verus! {

/// Where a candidate comes from.
#[derive(Clone, Copy, Debug, PartialEq, Eq, Structural)]
pub enum UICardType {
    /// From a hand.
    Hand,
    /// From a zone of the field.
    Zone,
}

/// A card offered in the dialog.
#[derive(Clone, Copy, Debug, PartialEq, Eq)]
pub struct UICardInfo {
    /// The kind of pool that the card lies in.
    pub card_type: UICardType,
    /// The pool and the card.
    pub zone_card_pair: ZoneCardPair,
}

/// A pool and the bound on how many of its cards may be chosen.
#[derive(Clone, Copy, Debug, PartialEq, Eq, Structural)]
pub struct ZoneAndLimit {
    /// The pool.
    pub entity: EntityId,
    /// The fewest cards to choose from it.
    pub min: usize,
    /// The most cards to choose from it.
    pub max: usize,
}

/// A request to choose the cards that pay for setting `card`.
#[derive(Clone, Debug)]
pub struct ShowDialogBox {
    /// The card being set.
    pub card: EntityId,
    /// The title of the dialog.
    pub text: String,
    /// The zones to choose from, each with its bound.
    pub zone_list: Vec<ZoneAndLimit>,
    /// The hands to choose from, each with its bound.
    pub hand_list: Vec<ZoneAndLimit>,
    /// The fewest cards to choose in all.
    pub min: usize,
    /// The most cards to choose in all.
    pub max: usize,
}

/// What a confirmed selection asks for.
#[derive(Clone, Debug)]
pub enum EnterEvent {
    /// Nothing to do.
    Test,
    /// Set `card`, paid for by the listed cards.
    SetCard {
        card: EntityId,
        /// The paying cards that come from a hand.
        cost_hand: Vec<ZoneCardPair>,
        /// The paying cards that come from a zone.
        cost_jq: Vec<ZoneCardPair>,
    },
}

/// The test for a candidate that lies in `zone`.
pub open spec fn lies_in(zone: EntityId) -> spec_fn(UICardInfo) -> bool {
    |c: UICardInfo| c.zone_card_pair.0 == zone
}

/// The chosen cards that lie in `zone`.
pub open spec fn chosen_from(chosen: Seq<UICardInfo>, zone: EntityId) -> Seq<UICardInfo> {
    chosen.filter(lies_in(zone))
}

/// Whether the number chosen from each listed pool lies within its bound.
pub open spec fn within_limits(list: Seq<ZoneAndLimit>, chosen: Seq<UICardInfo>) -> bool {
    forall|i: int|
        0 <= i < list.len() ==> (#[trigger] list[i]).min <= chosen_from(chosen, list[i].entity).len()
            <= list[i].max
}

/// How many of the chosen cards lie in `zone`.
pub fn count_from(chosen: &Vec<UICardInfo>, zone: EntityId) -> (n: usize)
    ensures
        n == chosen_from(chosen@, zone).len(),
{
    let ghost pred = lies_in(zone);
    let mut n: usize = 0;
    let mut i: usize = 0;
    proof {
        reveal(Seq::filter);
        assert(chosen@.take(0) =~= Seq::<UICardInfo>::empty());
    }
    while i < chosen.len()
        invariant
            i <= chosen.len(),
            n <= i,
            pred == lies_in(zone),
            n == chosen@.take(i as int).filter(pred).len(),
        decreases chosen.len() - i,
    {
        proof {
            assert(chosen@.take(i + 1) =~= chosen@.take(i as int).push(chosen@[i as int]));
            chosen@.take(i as int).lemma_filter_len_push(pred, chosen@[i as int]);
        }
        if chosen[i].zone_card_pair.0 == zone {
            n += 1;
        }
        i += 1;
    }
    proof {
        assert(chosen@.take(i as int) =~= chosen@);
    }
    n
}

/// The confirm button of a dialog, with the bounds that enable it.
#[derive(Clone, Debug)]
pub struct ConfirmButton {
    /// The fewest cards to choose in all.
    pub min: usize,
    /// The most cards to choose in all.
    pub max: usize,
    /// The bound of each pool.
    pub list: Vec<ZoneAndLimit>,
}

impl ConfirmButton {
    /// A selection enables the button when its size lies within the overall
    /// bound and the number chosen from each pool lies within that pool's
    /// bound.
    pub open spec fn enabled_by(self, chosen: Seq<UICardInfo>) -> bool {
        &&& self.min <= chosen.len() <= self.max
        &&& within_limits(self.list@, chosen)
    }

    /// Whether `chosen` enables the button.
    pub fn is_enabled(&self, chosen: &Vec<UICardInfo>) -> (enabled: bool)
        ensures
            enabled == self.enabled_by(chosen@),
    {
        let num: usize = chosen.len();
        let mut i: usize = 0;
        while i < self.list.len()
            invariant
                i <= self.list.len(),
                forall|k: int|
                    0 <= k < i ==> (#[trigger] self.list@[k]).min <= chosen_from(
                        chosen@,
                        self.list@[k].entity,
                    ).len() <= self.list@[k].max,
            decreases self.list.len() - i,
        {
            let n: usize = count_from(chosen, self.list[i].entity);
            if !(n >= self.list[i].min && n <= self.list[i].max) {
                return false;
            }
            i += 1;
        }
        num >= self.min && num <= self.max
    }
}

/// Whether `list` has a bound for the pool `entity`.
pub open spec fn names_pool(list: Seq<ZoneAndLimit>, entity: EntityId) -> bool {
    exists|i: int| 0 <= i < list.len() && (#[trigger] list[i]).entity == entity
}

/// Whether `list` has a bound for the pool `entity`.
pub fn limits_name(list: &Vec<ZoneAndLimit>, entity: EntityId) -> (named: bool)
    ensures
        named == names_pool(list@, entity),
{
    let mut i: usize = 0;
    while i < list.len()
        invariant
            i <= list.len(),
            forall|k: int| 0 <= k < i ==> (#[trigger] list@[k]).entity != entity,
        decreases list.len() - i,
    {
        if list[i].entity == entity {
            return true;
        }
        i += 1;
    }
    false
}

/// The test for an entity other than `card`.
pub open spec fn other_than(card: EntityId) -> spec_fn(EntityId) -> bool {
    |e: EntityId| e != card
}

/// The candidate that stands for a card of the pool `zone`.
pub open spec fn offered(kind: UICardType, zone: EntityId) -> spec_fn(EntityId) -> UICardInfo {
    |e: EntityId| UICardInfo { card_type: kind, zone_card_pair: (zone, e) }
}

/// The candidates that a pool offers for setting `placed`: its cards in
/// order, without `placed` itself.
pub open spec fn candidates_in(kind: UICardType, pool: Pool, placed: EntityId) -> Seq<UICardInfo> {
    pool.card_list@.filter(other_than(placed)).map_values(offered(kind, pool.entity))
}

/// The candidates that a pool offers for setting `placed`.
pub fn spawn_card_list(kind: UICardType, pool: &Pool, placed: EntityId) -> (list: Vec<UICardInfo>)
    ensures
        list@ == candidates_in(kind, *pool, placed),
{
    let mut list: Vec<UICardInfo> = Vec::new();
    let mut i: usize = 0;
    proof {
        reveal(Seq::filter);
        assert(pool.card_list@.take(0) =~= Seq::<EntityId>::empty());
        assert(list@ =~= pool.card_list@.take(0).filter(other_than(placed)).map_values(
            offered(kind, pool.entity),
        ));
    }
    while i < pool.card_list.len()
        invariant
            i <= pool.card_list.len(),
            list@ == pool.card_list@.take(i as int).filter(other_than(placed)).map_values(
                offered(kind, pool.entity),
            ),
        decreases pool.card_list.len() - i,
    {
        let e: EntityId = pool.card_list[i];
        proof {
            let before = pool.card_list@.take(i as int);
            assert(pool.card_list@.take(i + 1) =~= before.push(e));
            before.lemma_filter_push(e, other_than(placed));
            if e != placed {
                assert(before.filter(other_than(placed)).push(e).map_values(
                    offered(kind, pool.entity),
                ) =~= list@.push(UICardInfo { card_type: kind, zone_card_pair: (pool.entity, e) }));
            }
        }
        if e != placed {
            list.push(UICardInfo { card_type: kind, zone_card_pair: (pool.entity, e) });
        }
        i += 1;
    }
    proof {
        assert(pool.card_list@.take(i as int) =~= pool.card_list@);
    }
    list
}

/// Every candidate that a request offers from the hand and from the passion
/// zone: a pool is offered where the request has a bound for it, the hand
/// first.
pub open spec fn dialog_candidates(request: ShowDialogBox, hand: Pool, jq: Pool) -> Seq<UICardInfo> {
    (if names_pool(request.hand_list@, hand.entity) {
        candidates_in(UICardType::Hand, hand, request.card)
    } else {
        Seq::<UICardInfo>::empty()
    }) + (if names_pool(request.zone_list@, jq.entity) {
        candidates_in(UICardType::Zone, jq, request.card)
    } else {
        Seq::<UICardInfo>::empty()
    })
}

/// No candidate of a pool is the card being set.
pub proof fn lemma_candidates_exclude_placed(kind: UICardType, pool: Pool, placed: EntityId)
    ensures
        forall|i: int|
            0 <= i < candidates_in(kind, pool, placed).len() ==> (#[trigger] candidates_in(
                kind,
                pool,
                placed,
            )[i]).zone_card_pair.1 != placed,
{
    let kept = pool.card_list@.filter(other_than(placed));
    assert forall|i: int| 0 <= i < candidates_in(kind, pool, placed).len() implies (
    #[trigger] candidates_in(kind, pool, placed)[i]).zone_card_pair.1 != placed by {
        pool.card_list@.lemma_filter_pred(other_than(placed), i);
        assert(other_than(placed)(kept[i]));
    }
}

/// The candidates of the dialog that `request` opens.
pub fn show_dialog(request: &ShowDialogBox, hand: &Pool, jq: &Pool) -> (list: Vec<UICardInfo>)
    ensures
        list@ == dialog_candidates(*request, *hand, *jq),
        forall|i: int| 0 <= i < list@.len() ==> (#[trigger] list@[i]).zone_card_pair.1 != request.card,
{
    let mut list: Vec<UICardInfo> = if limits_name(&request.hand_list, hand.entity) {
        spawn_card_list(UICardType::Hand, hand, request.card)
    } else {
        Vec::new()
    };
    let ghost from_hand = list@;
    if limits_name(&request.zone_list, jq.entity) {
        let mut from_zone = spawn_card_list(UICardType::Zone, jq, request.card);
        list.append(&mut from_zone);
    }
    proof {
        lemma_candidates_exclude_placed(UICardType::Hand, *hand, request.card);
        lemma_candidates_exclude_placed(UICardType::Zone, *jq, request.card);
        assert(list@ =~= dialog_candidates(*request, *hand, *jq));
    }
    list
}

impl ShowDialogBox {
    /// The confirm button of the dialog: the overall bound of the request,
    /// and the bounds of its hands followed by those of its zones.
    pub fn confirm_button(&self) -> (button: ConfirmButton)
        ensures
            button.min == self.min,
            button.max == self.max,
            button.list@ == self.hand_list@ + self.zone_list@,
    {
        let mut list: Vec<ZoneAndLimit> = Vec::new();
        let mut i: usize = 0;
        while i < self.hand_list.len()
            invariant
                i <= self.hand_list.len(),
                list@ == self.hand_list@.take(i as int),
            decreases self.hand_list.len() - i,
        {
            list.push(self.hand_list[i]);
            assert(self.hand_list@.take(i + 1) =~= self.hand_list@.take(i as int).push(
                self.hand_list@[i as int],
            ));
            i += 1;
        }
        assert(self.hand_list@.take(i as int) =~= self.hand_list@);
        let mut j: usize = 0;
        while j < self.zone_list.len()
            invariant
                j <= self.zone_list.len(),
                list@ == self.hand_list@ + self.zone_list@.take(j as int),
            decreases self.zone_list.len() - j,
        {
            list.push(self.zone_list[j]);
            assert(self.hand_list@ + self.zone_list@.take(j + 1) =~= (self.hand_list@
                + self.zone_list@.take(j as int)).push(self.zone_list@[j as int]));
            j += 1;
        }
        assert(self.zone_list@.take(j as int) =~= self.zone_list@);
        ConfirmButton { min: self.min, max: self.max, list }
    }
}

/// Whether some entry of `list` stands for the card `card`.
pub open spec fn holds_card(list: Seq<UICardInfo>, card: EntityId) -> bool {
    exists|i: int| 0 <= i < list.len() && (#[trigger] list[i]).zone_card_pair.1 == card
}

/// The place of the first entry of `list` that stands for `card`, where
/// there is one.
pub open spec fn first_with_card(list: Seq<UICardInfo>, card: EntityId) -> int {
    choose|i: int|
        0 <= i < list.len() && (#[trigger] list[i]).zone_card_pair.1 == card && forall|j: int|
            0 <= j < i ==> (#[trigger] list[j]).zone_card_pair.1 != card
}

/// The place of the first entry of `list` that stands for `card`.
pub fn find_card(list: &Vec<UICardInfo>, card: EntityId) -> (place: Option<usize>)
    ensures
        match place {
            Some(i) => holds_card(list@, card) && i == first_with_card(list@, card) && i < list@.len()
                && list@[i as int].zone_card_pair.1 == card,
            None => !holds_card(list@, card),
        },
{
    let mut i: usize = 0;
    while i < list.len()
        invariant
            i <= list.len(),
            forall|k: int| 0 <= k < i ==> (#[trigger] list@[k]).zone_card_pair.1 != card,
        decreases list.len() - i,
    {
        if list[i].zone_card_pair.1 == card {
            proof {
                let w = first_with_card(list@, card);
                assert(0 <= w < list@.len() && list@[w].zone_card_pair.1 == card && forall|j: int|
                    0 <= j < w ==> (#[trigger] list@[j]).zone_card_pair.1 != card);
                assert(w == i) by {
                    if w < i {
                        assert(list@[w].zone_card_pair.1 != card);
                    }
                    if i < w {
                        assert(list@[i as int].zone_card_pair.1 != card);
                    }
                }
            }
            return Some(i);
        }
        i += 1;
    }
    None
}

/// The selection after the player has clicked on `card`: a chosen card is
/// put back, a candidate that was not chosen is added at the end, and a
/// click on anything else changes nothing.
pub open spec fn toggled(candidates: Seq<UICardInfo>, chosen: Seq<UICardInfo>, card: EntityId) -> Seq<
    UICardInfo,
> {
    if holds_card(chosen, card) {
        chosen.remove(first_with_card(chosen, card))
    } else if holds_card(candidates, card) {
        chosen.push(candidates[first_with_card(candidates, card)])
    } else {
        chosen
    }
}

/// Where some entry stands for `card`, there is a first such entry, and
/// [`first_with_card`] is its place.
pub proof fn lemma_first_with_card(list: Seq<UICardInfo>, card: EntityId)
    requires
        holds_card(list, card),
    ensures
        0 <= first_with_card(list, card) < list.len(),
        list[first_with_card(list, card)].zone_card_pair.1 == card,
        forall|j: int|
            0 <= j < first_with_card(list, card) ==> (#[trigger] list[j]).zone_card_pair.1 != card,
{
    let n = choose|i: int| 0 <= i < list.len() && (#[trigger] list[i]).zone_card_pair.1 == card;
    lemma_first_up_to(list, card, n);
}

/// Where the entry at `n` stands for `card`, some entry up to `n` is the
/// first that does.
proof fn lemma_first_up_to(list: Seq<UICardInfo>, card: EntityId, n: int)
    requires
        0 <= n < list.len(),
        list[n].zone_card_pair.1 == card,
    ensures
        exists|i: int|
            0 <= i < list.len() && (#[trigger] list[i]).zone_card_pair.1 == card && forall|j: int|
                0 <= j < i ==> (#[trigger] list[j]).zone_card_pair.1 != card,
    decreases n,
{
    if exists|k: int| 0 <= k < n && (#[trigger] list[k]).zone_card_pair.1 == card {
        let k = choose|k: int| 0 <= k < n && (#[trigger] list[k]).zone_card_pair.1 == card;
        lemma_first_up_to(list, card, k);
    } else {
        assert(0 <= n < list.len() && list[n].zone_card_pair.1 == card && forall|j: int|
            0 <= j < n ==> (#[trigger] list[j]).zone_card_pair.1 != card);
    }
}

/// A second click undoes the first: clicking twice on a card that was not
/// chosen leaves the selection exactly as it was.
pub proof fn lemma_toggle_twice(candidates: Seq<UICardInfo>, chosen: Seq<UICardInfo>, card: EntityId)
    requires
        !holds_card(chosen, card),
    ensures
        toggled(candidates, toggled(candidates, chosen, card), card) == chosen,
{
    if holds_card(candidates, card) {
        lemma_first_with_card(candidates, card);
        let c = candidates[first_with_card(candidates, card)];
        let once = chosen.push(c);
        assert(once[chosen.len() as int].zone_card_pair.1 == card);
        assert(holds_card(once, card));
        lemma_first_with_card(once, card);
        let w = first_with_card(once, card);
        assert(w == chosen.len()) by {
            if w < chosen.len() {
                assert(once[w] == chosen[w]);
            }
        }
        assert(once.remove(w) =~= chosen);
    }
}

/// The pair of pool and card of a candidate.
pub open spec fn pair_of() -> spec_fn(UICardInfo) -> ZoneCardPair {
    |c: UICardInfo| c.zone_card_pair
}

/// The test for a candidate of the kind `kind`.
pub open spec fn of_kind(kind: UICardType) -> spec_fn(UICardInfo) -> bool {
    |c: UICardInfo| c.card_type == kind
}

/// The pairs of the chosen cards of one kind, in the order chosen.
pub open spec fn chosen_pairs(chosen: Seq<UICardInfo>, kind: UICardType) -> Seq<ZoneCardPair> {
    chosen.filter(of_kind(kind)).map_values(pair_of())
}

/// The pairs of the chosen cards of one kind, in the order chosen.
pub fn pairs_of_kind(chosen: &Vec<UICardInfo>, kind: UICardType) -> (pairs: Vec<ZoneCardPair>)
    ensures
        pairs@ == chosen_pairs(chosen@, kind),
{
    let mut pairs: Vec<ZoneCardPair> = Vec::new();
    let mut i: usize = 0;
    proof {
        reveal(Seq::filter);
        assert(chosen@.take(0) =~= Seq::<UICardInfo>::empty());
        assert(pairs@ =~= chosen_pairs(chosen@.take(0), kind));
    }
    while i < chosen.len()
        invariant
            i <= chosen.len(),
            pairs@ == chosen_pairs(chosen@.take(i as int), kind),
        decreases chosen.len() - i,
    {
        let c: UICardInfo = chosen[i];
        proof {
            let before = chosen@.take(i as int);
            assert(chosen@.take(i + 1) =~= before.push(c));
            before.lemma_filter_push(c, of_kind(kind));
            if c.card_type == kind {
                assert(before.filter(of_kind(kind)).push(c).map_values(pair_of()) =~= pairs@.push(
                    c.zone_card_pair,
                ));
            }
        }
        let same: bool = match (c.card_type, kind) {
            (UICardType::Hand, UICardType::Hand) => true,
            (UICardType::Zone, UICardType::Zone) => true,
            _ => false,
        };
        if same {
            pairs.push(c.zone_card_pair);
        }
        i += 1;
    }
    proof {
        assert(chosen@.take(i as int) =~= chosen@);
    }
    pairs
}

/// Whether every chosen card is one of the candidates.
pub open spec fn all_offered(candidates: Seq<UICardInfo>, chosen: Seq<UICardInfo>) -> bool {
    forall|i: int| 0 <= i < chosen.len() ==> candidates.contains(#[trigger] chosen[i])
}

/// Whether no card is chosen twice.
pub open spec fn distinct_cards(chosen: Seq<UICardInfo>) -> bool {
    forall|i: int, j: int|
        0 <= i < j < chosen.len() ==> (#[trigger] chosen[i]).zone_card_pair.1 != (
        #[trigger] chosen[j]).zone_card_pair.1
}

/// Putting a chosen card back leaves a selection of candidates without
/// repetition.
pub proof fn lemma_remove_keeps(candidates: Seq<UICardInfo>, chosen: Seq<UICardInfo>, i: int)
    requires
        all_offered(candidates, chosen),
        distinct_cards(chosen),
        0 <= i < chosen.len(),
    ensures
        all_offered(candidates, chosen.remove(i)),
        distinct_cards(chosen.remove(i)),
{
    let rest = chosen.remove(i);
    chosen.remove_ensures(i);
    assert forall|k: int| 0 <= k < rest.len() implies candidates.contains(#[trigger] rest[k]) by {
        if k < i {
            assert(rest[k] == chosen[k]);
        } else {
            assert(rest[k] == chosen[k + 1]);
        }
    }
    assert forall|a: int, b: int| 0 <= a < b < rest.len() implies (#[trigger] rest[a]).zone_card_pair.1
        != (#[trigger] rest[b]).zone_card_pair.1 by {
        let a0 = if a < i { a } else { a + 1 };
        let b0 = if b < i { b } else { b + 1 };
        assert(rest[a] == chosen[a0]);
        assert(rest[b] == chosen[b0]);
        assert(a0 < b0);
    }
}

/// Adding a candidate that is not among the chosen cards leaves a selection
/// of candidates without repetition.
pub proof fn lemma_push_keeps(candidates: Seq<UICardInfo>, chosen: Seq<UICardInfo>, j: int)
    requires
        all_offered(candidates, chosen),
        distinct_cards(chosen),
        0 <= j < candidates.len(),
        !holds_card(chosen, candidates[j].zone_card_pair.1),
    ensures
        all_offered(candidates, chosen.push(candidates[j])),
        distinct_cards(chosen.push(candidates[j])),
{
    let more = chosen.push(candidates[j]);
    assert forall|k: int| 0 <= k < more.len() implies candidates.contains(#[trigger] more[k]) by {
        if k < chosen.len() {
            assert(more[k] == chosen[k]);
        } else {
            assert(more[k] == candidates[j]);
        }
    }
    assert forall|a: int, b: int| 0 <= a < b < more.len() implies (#[trigger] more[a]).zone_card_pair.1
        != (#[trigger] more[b]).zone_card_pair.1 by {
        assert(more[a] == chosen[a]);
        if b < chosen.len() {
            assert(more[b] == chosen[b]);
        } else {
            assert(more[b] == candidates[j]);
            assert(chosen[a].zone_card_pair.1 != candidates[j].zone_card_pair.1);
        }
    }
}

/// An open selection: the request, the candidates it offers, what the player
/// has chosen so far, and whether that may be confirmed.
#[derive(Clone, Debug)]
pub struct SelectionSession {
    /// The request that opened the session.
    pub request: ShowDialogBox,
    /// The zone on which the card is to be set.
    pub zone: EntityId,
    /// The cards offered, the hand first.
    pub candidates: Vec<UICardInfo>,
    /// The cards chosen so far, in the order chosen.
    pub chosen: Vec<UICardInfo>,
    /// The confirm button of the dialog.
    pub button: ConfirmButton,
    /// Whether the button is enabled.
    pub valid: bool,
}

impl SelectionSession {
    /// What holds of every session that was opened by [`SelectionSession::open`]
    /// and changed by [`SelectionSession::toggle`] only: the card being set
    /// is no candidate; every chosen card is a candidate; no card is chosen
    /// twice; the button carries the bounds of the request; and `valid` says
    /// whether the selection enables the button.
    pub open spec fn wf(self) -> bool {
        &&& forall|i: int|
            0 <= i < self.candidates@.len() ==> (#[trigger] self.candidates@[i]).zone_card_pair.1
                != self.request.card
        &&& all_offered(self.candidates@, self.chosen@)
        &&& distinct_cards(self.chosen@)
        &&& self.button.min == self.request.min
        &&& self.button.max == self.request.max
        &&& self.button.list@ == self.request.hand_list@ + self.request.zone_list@
        &&& self.valid == self.button.enabled_by(self.chosen@)
    }

    /// Opens the session for `request`, with nothing chosen yet.
    pub fn open(request: ShowDialogBox, zone: EntityId, hand: &Pool, jq: &Pool) -> (session: SelectionSession)
        ensures
            session.request == request,
            session.zone == zone,
            session.candidates@ == dialog_candidates(request, *hand, *jq),
            session.chosen@ == Seq::<UICardInfo>::empty(),
            session.wf(),
    {
        let candidates = show_dialog(&request, hand, jq);
        let button = request.confirm_button();
        let chosen: Vec<UICardInfo> = Vec::new();
        let valid = button.is_enabled(&chosen);
        SelectionSession { request, zone, candidates, chosen, button, valid }
    }

    /// A click on `card`: see [`toggled`]. Whether the selection may be
    /// confirmed is worked out anew.
    pub fn toggle(&mut self, card: EntityId)
        ensures
            final(self).request == old(self).request,
            final(self).zone == old(self).zone,
            final(self).candidates == old(self).candidates,
            final(self).button == old(self).button,
            final(self).chosen@ == toggled(old(self).candidates@, old(self).chosen@, card),
            final(self).valid == final(self).button.enabled_by(final(self).chosen@),
            old(self).wf() ==> final(self).wf(),
    {
        match find_card(&self.chosen, card) {
            Some(i) => {
                proof {
                    if old(self).wf() {
                        lemma_remove_keeps(self.candidates@, self.chosen@, i as int);
                    }
                }
                self.chosen.remove(i);
            },
            None => {
                match find_card(&self.candidates, card) {
                    Some(j) => {
                        let c: UICardInfo = self.candidates[j];
                        proof {
                            if old(self).wf() {
                                lemma_push_keeps(self.candidates@, self.chosen@, j as int);
                            }
                        }
                        self.chosen.push(c);
                    },
                    None => {},
                }
            },
        }
        self.valid = self.button.is_enabled(&self.chosen);
    }

    /// What a confirmation of the selection asks for: the card, the chosen
    /// cards of the hand and the chosen cards of the zones.
    pub open spec fn outcome(self) -> (EntityId, Seq<ZoneCardPair>, Seq<ZoneCardPair>) {
        (
            self.request.card,
            chosen_pairs(self.chosen@, UICardType::Hand),
            chosen_pairs(self.chosen@, UICardType::Zone),
        )
    }

    /// Confirms the selection where it enables the button; otherwise the
    /// confirmation is refused as `InvalidSelection`.
    pub fn commit(&self) -> (r: Result<EnterEvent, PlacementError>)
        ensures
            self.button.enabled_by(self.chosen@) ==> r is Ok && r->Ok_0 is SetCard && (
                r->Ok_0->card,
                r->Ok_0->cost_hand@,
                r->Ok_0->cost_jq@,
            ) == self.outcome(),
            !self.button.enabled_by(self.chosen@) ==> r == Err::<EnterEvent, PlacementError>(
                PlacementError::InvalidSelection,
            ),
    {
        if self.button.is_enabled(&self.chosen) {
            Ok(
                EnterEvent::SetCard {
                    card: self.request.card,
                    cost_hand: pairs_of_kind(&self.chosen, UICardType::Hand),
                    cost_jq: pairs_of_kind(&self.chosen, UICardType::Zone),
                },
            )
        } else {
            Err(PlacementError::InvalidSelection)
        }
    }
}

} // verus!
