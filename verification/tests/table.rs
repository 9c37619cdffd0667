use card_placement::card_info::card_enums::{Attr, CardType, Race};
use card_placement::card_info::CardInfo;
use card_placement::card_zone::can_set::{CanSetOn, FieldZone, Occupancy};
use card_placement::error::PlacementError;
use card_placement::hand_card::CardLineResource;
use card_placement::pool::Pool;
use card_placement::table::{all_live, cards_lying, change_all_lx, CardState, LxCard, Table, JQ_CEILING};
use card_placement::ui::{EnterEvent, UICardInfo, UICardType, ZoneAndLimit};
use card_placement::zone_info::{AllZoneInfo, AllZoneInfoResource};

const HAND: u64 = 100;
const LX: u64 = 101;
const JQ: u64 = 102;
const DESK: u64 = 103;
const BATTLE: u64 = 200;

fn info(card_type: CardType, cost: usize) -> CardInfo {
    CardInfo {
        id: "S001".to_string(),
        name: "card".to_string(),
        card_type,
        attr: Attr::BEAST,
        race: Race::Human,
        cost,
        ack: 7,
    }
}

fn table(hand: &[u64], lx: &[u64], jq: &[u64], desk: &[u64]) -> Table {
    let mut t = Table::new(HAND, LX, JQ, DESK);
    t.hand.card_list = hand.to_vec();
    t.lx.card_list = lx.to_vec();
    t.jq.card_list = jq.to_vec();
    t.desk.card_list = desk.to_vec();
    t
}

fn battle(occupancy: Occupancy, cards: &[u64]) -> FieldZone {
    FieldZone {
        entity: BATTLE,
        can_set_on: CanSetOn(vec![CardType::Actor, CardType::Arcane]),
        occupancy,
        card_list: cards.to_vec(),
    }
}

fn pools(t: &Table) -> (Vec<u64>, Vec<u64>, Vec<u64>, Vec<u64>) {
    (
        t.hand.card_list.clone(),
        t.lx.card_list.clone(),
        t.jq.card_list.clone(),
        t.desk.card_list.clone(),
    )
}

#[test]
fn new_table_is_empty() {
    let t = Table::new(HAND, LX, JQ, DESK);
    assert_eq!((t.hand.entity, t.lx.entity, t.jq.entity, t.desk.entity), (HAND, LX, JQ, DESK));
    assert_eq!(pools(&t), (vec![], vec![], vec![], vec![]));
    assert!(t.session.is_none());
}

#[test]
fn actor_on_a_taken_single_zone_opens_no_session() {
    let mut t = table(&[1, 2, 3, 4], &[], &[10], &[]);
    let before = pools(&t);
    let z = battle(Occupancy::Single, &[77]);
    assert_eq!(t.on_drop(1, &info(CardType::Actor, 1), &z), Err(PlacementError::OccupancyBlocked));
    assert!(t.session.is_none());
    assert_eq!(pools(&t), before);
}

#[test]
fn every_rejection_leaves_the_table_alone() {
    let mut t = table(&[1, 2], &[], &[], &[]);
    let before = pools(&t);
    let meme_only = FieldZone {
        entity: BATTLE,
        can_set_on: CanSetOn(vec![CardType::Meme]),
        occupancy: Occupancy::Unbounded,
        card_list: vec![],
    };
    assert_eq!(
        t.on_drop(1, &info(CardType::Actor, 1), &meme_only),
        Err(PlacementError::IneligibleCategory)
    );
    let z = battle(Occupancy::Unbounded, &[]);
    assert_eq!(t.on_drop(1, &info(CardType::Arcane, 1), &z), Err(PlacementError::PaymentUndefined));
    assert_eq!(t.on_drop(1, &info(CardType::Actor, 2), &z), Err(PlacementError::Unsatisfiable));
    assert!(t.session.is_none());
    assert_eq!(pools(&t), before);
}

#[test]
fn select_two_from_hand_then_one_from_jq_and_commit() {
    // Cost 3; four other hand cards; three free slots; one card in the
    // passion zone: the hand pays two or three, the passion zone none or one.
    let mut t = table(&[1, 2, 3, 4, 5], &[20, 21, 22], &[10], &[30, 31]);
    let mut z = battle(Occupancy::Single, &[]);
    assert_eq!(t.on_drop(1, &info(CardType::Actor, 3), &z), Ok(()));
    {
        let s = t.session.as_ref().unwrap();
        assert_eq!(s.request.card, 1);
        assert_eq!(s.request.hand_list, vec![ZoneAndLimit { entity: HAND, min: 2, max: 3 }]);
        assert_eq!(s.request.zone_list, vec![ZoneAndLimit { entity: JQ, min: 0, max: 1 }]);
        assert_eq!((s.request.min, s.request.max), (3, 3));
        assert_eq!(s.zone, BATTLE);
        assert!(s.candidates.iter().all(|c| c.zone_card_pair.1 != 1));
        assert_eq!(s.candidates.len(), 5);
        assert!(s.chosen.is_empty());
        assert!(!s.valid);
    }

    t.on_toggle(2);
    t.on_toggle(4);
    assert!(!t.session.as_ref().unwrap().valid);
    let before = pools(&t);
    assert_eq!(t.on_commit(&mut z).err(), Some(PlacementError::InvalidSelection));
    assert!(t.session.is_some());
    assert_eq!(pools(&t), before);
    assert!(z.card_list.is_empty());

    t.on_toggle(10);
    assert!(t.session.as_ref().unwrap().valid);
    assert_eq!(pools(&t), before);

    match t.on_commit(&mut z) {
        Ok(EnterEvent::SetCard { card, cost_hand, cost_jq }) => {
            assert_eq!(card, 1);
            assert_eq!(cost_hand, vec![(HAND, 2), (HAND, 4)]);
            assert_eq!(cost_jq, vec![(JQ, 10)]);
        }
        _ => panic!("the selection is valid"),
    }
    assert!(t.session.is_none());
    assert_eq!(pools(&t), (vec![3, 5], vec![20, 21, 22], vec![], vec![30, 31]));
    assert_eq!(z.card_list, vec![1]);
    assert_eq!(z.entity, BATTLE);
}

#[test]
fn cancel_changes_no_pool() {
    let mut t = table(&[1, 2, 3], &[], &[10, 11], &[30]);
    let before = pools(&t);
    let z = battle(Occupancy::Single, &[]);
    assert_eq!(t.on_drop(1, &info(CardType::Actor, 2), &z), Ok(()));
    t.on_toggle(2);
    t.on_toggle(11);
    assert!(t.session.as_ref().unwrap().valid);
    t.on_cancel();
    assert!(t.session.is_none());
    assert_eq!(pools(&t), before);
    // Nothing is left of the selection when the next one opens.
    assert_eq!(t.on_drop(1, &info(CardType::Actor, 2), &z), Ok(()));
    assert!(t.session.as_ref().unwrap().chosen.is_empty());
    t.on_cancel();
    t.on_cancel();
    assert_eq!(pools(&t), before);
}

#[test]
fn one_session_at_a_time() {
    let mut t = table(&[1, 2, 3], &[], &[], &[]);
    let z = battle(Occupancy::Unbounded, &[]);
    assert_eq!(t.on_drop(1, &info(CardType::Actor, 1), &z), Ok(()));
    t.on_toggle(2);
    assert_eq!(t.on_drop(3, &info(CardType::Actor, 1), &z), Err(PlacementError::SessionOpen));
    assert_eq!(t.on_drop(1, &info(CardType::Actor, 1), &z), Err(PlacementError::SessionOpen));
    let s = t.session.as_ref().unwrap();
    assert_eq!(s.request.card, 1);
    assert_eq!(s.chosen, vec![UICardInfo { card_type: UICardType::Hand, zone_card_pair: (HAND, 2) }]);
}

#[test]
fn toggle_and_commit_without_a_session() {
    let mut t = table(&[1, 2], &[], &[], &[]);
    let mut z = battle(Occupancy::Unbounded, &[]);
    t.on_toggle(1);
    assert!(t.session.is_none());
    assert_eq!(t.on_commit(&mut z).err(), Some(PlacementError::InvalidSelection));
    assert_eq!(pools(&t), (vec![1, 2], vec![], vec![], vec![]));
    assert!(z.card_list.is_empty());
}

#[test]
fn commit_for_another_zone_is_refused() {
    let mut t = table(&[1], &[], &[], &[]);
    let z = battle(Occupancy::Unbounded, &[]);
    assert_eq!(t.on_drop(1, &info(CardType::Actor, 0), &z), Ok(()));
    assert!(t.session.as_ref().unwrap().valid);
    let mut other = battle(Occupancy::Unbounded, &[]);
    other.entity = 201;
    assert_eq!(t.on_commit(&mut other).err(), Some(PlacementError::InvalidSelection));
    assert!(t.session.is_some());
    assert!(other.card_list.is_empty());
    let mut z = z;
    assert!(t.on_commit(&mut z).is_ok());
    assert_eq!(z.card_list, vec![1]);
    assert_eq!(pools(&t), (vec![], vec![], vec![], vec![]));
}

#[test]
fn commit_looks_at_the_pools_again() {
    let mut t = table(&[1, 2, 3], &[], &[], &[]);
    let mut z = battle(Occupancy::Single, &[]);
    assert_eq!(t.on_drop(1, &info(CardType::Actor, 1), &z), Ok(()));
    t.on_toggle(2);
    assert!(t.session.as_ref().unwrap().valid);
    // The chosen card has left the hand in the meantime.
    t.hand.card_list = vec![1, 3];
    assert_eq!(t.on_commit(&mut z).err(), Some(PlacementError::InvalidSelection));
    assert_eq!(pools(&t), (vec![1, 3], vec![], vec![], vec![]));
    assert!(z.card_list.is_empty());
    assert!(t.session.is_some());
    // It is back, but the zone has been taken.
    t.hand.card_list = vec![1, 2, 3];
    z.card_list.push(9);
    assert_eq!(t.on_commit(&mut z).err(), Some(PlacementError::InvalidSelection));
    assert_eq!(pools(&t), (vec![1, 2, 3], vec![], vec![], vec![]));
    assert_eq!(z.card_list, vec![9]);
    z.card_list.clear();
    assert!(t.on_commit(&mut z).is_ok());
    assert_eq!(pools(&t), (vec![3], vec![], vec![], vec![]));
    assert_eq!(z.card_list, vec![1]);
}

#[test]
fn a_card_of_the_reason_zone_leaves_it_when_set() {
    let mut t = table(&[1, 2], &[20, 21], &[10], &[]);
    let mut z = battle(Occupancy::Unbounded, &[8]);
    assert_eq!(t.on_drop(20, &info(CardType::Actor, 2), &z), Ok(()));
    t.on_toggle(1);
    t.on_toggle(10);
    assert!(t.on_commit(&mut z).is_ok());
    assert_eq!(pools(&t), (vec![2], vec![21], vec![], vec![]));
    assert_eq!(z.card_list, vec![8, 20]);
}

#[test]
fn apply_commit_is_all_or_nothing() {
    let mut t = table(&[1, 2, 3], &[], &[10, 11], &[]);
    let mut z = battle(Occupancy::Single, &[]);
    let stale = EnterEvent::SetCard { card: 1, cost_hand: vec![(HAND, 2)], cost_jq: vec![(JQ, 12)] };
    assert_eq!(t.apply_commit(&stale, &mut z), Err(PlacementError::InvalidSelection));
    assert_eq!(pools(&t), (vec![1, 2, 3], vec![], vec![10, 11], vec![]));
    assert!(z.card_list.is_empty());
    let wrong_pool = EnterEvent::SetCard { card: 1, cost_hand: vec![(JQ, 2)], cost_jq: vec![] };
    assert_eq!(t.apply_commit(&wrong_pool, &mut z), Err(PlacementError::InvalidSelection));
    assert_eq!(pools(&t), (vec![1, 2, 3], vec![], vec![10, 11], vec![]));
    assert_eq!(t.apply_commit(&EnterEvent::Test, &mut z), Ok(()));
    assert_eq!(pools(&t), (vec![1, 2, 3], vec![], vec![10, 11], vec![]));
    let good = EnterEvent::SetCard { card: 1, cost_hand: vec![(HAND, 2)], cost_jq: vec![(JQ, 11)] };
    assert_eq!(t.apply_commit(&good, &mut z), Ok(()));
    assert_eq!(pools(&t), (vec![3], vec![], vec![10], vec![]));
    assert_eq!(z.card_list, vec![1]);
}

#[test]
fn pool_settles_by_pool_and_card() {
    let mut p = Pool { entity: HAND, card_list: vec![1, 2, 3, 4] };
    p.settle(4, &vec![(HAND, 2), (JQ, 3)], &vec![(JQ, 1)]);
    assert_eq!(p.card_list, vec![1, 3]);
    assert_eq!(p.entity, HAND);
    assert!(all_live(&vec![(HAND, 1)], &p, &Pool::new(JQ)));
    assert!(!all_live(&vec![(HAND, 1), (HAND, 2)], &p, &Pool::new(JQ)));
    assert!(all_live(&vec![], &p, &Pool::new(JQ)));
}

#[test]
fn draw_takes_the_top_of_the_deck() {
    let mut t = table(&[1], &[], &[], &[30, 31]);
    assert_eq!(t.on_click_draw(), Some(31));
    assert_eq!(pools(&t), (vec![1, 31], vec![], vec![], vec![30]));
    assert_eq!(t.on_click_draw(), Some(30));
    assert_eq!(t.on_click_draw(), None);
    assert_eq!(pools(&t), (vec![1, 31, 30], vec![], vec![], vec![]));
}

#[test]
fn hand_feeds_the_reason_zone_up_to_six() {
    let mut t = table(&[1, 2], &[20, 21, 22, 23, 24], &[], &[]);
    assert_eq!(t.put_hand_in_lx(), Some(2));
    assert_eq!(pools(&t), (vec![1], vec![20, 21, 22, 23, 24, 2], vec![], vec![]));
    assert_eq!(t.put_hand_in_lx(), None);
    assert_eq!(pools(&t), (vec![1], vec![20, 21, 22, 23, 24, 2], vec![], vec![]));
    let mut empty = table(&[], &[], &[], &[]);
    assert_eq!(empty.put_hand_in_lx(), None);
}

#[test]
fn deck_feeds_the_passion_zone_up_to_six() {
    assert_eq!(JQ_CEILING, 6);
    let mut t = table(&[], &[], &[10, 11, 12, 13, 14], &[30, 31]);
    assert_eq!(t.put_desk_in_jq(), Some(31));
    assert_eq!(pools(&t), (vec![], vec![], vec![10, 11, 12, 13, 14, 31], vec![30]));
    assert_eq!(t.put_desk_in_jq(), None);
    assert_eq!(pools(&t), (vec![], vec![], vec![10, 11, 12, 13, 14, 31], vec![30]));
    let mut empty = table(&[], &[], &[], &[]);
    assert_eq!(empty.put_desk_in_jq(), None);
}

#[test]
fn upright_cards_go_home_and_turned_cards_stand_up() {
    let lx = vec![
        LxCard { entity: 20, state: CardState { face_up: true, vertical: true } },
        LxCard { entity: 21, state: CardState { face_up: true, vertical: false } },
        LxCard { entity: 22, state: CardState { face_up: false, vertical: true } },
    ];
    let change = change_all_lx(&lx);
    assert_eq!(change.to_hand, vec![20, 22]);
    assert_eq!(change.to_stand, vec![21]);
    assert_eq!(change.state, CardState { face_up: true, vertical: true });
    assert_eq!(cards_lying(&lx, false), vec![21]);
    assert_eq!(cards_lying(&Vec::new(), true), Vec::<u64>::new());
}

#[test]
fn context_values_hold_their_entities() {
    let mine = AllZoneInfo {
        desk: 1,
        grave: 2,
        lx: 3,
        jq: 4,
        battle1: 5,
        battle2: 6,
        battle3: 7,
        prepare: 8,
        safe1: 9,
        safe2: 10,
        safe3: 11,
        safe4: 12,
    };
    let all = AllZoneInfoResource { my: mine, opponent: mine };
    let lines = CardLineResource { my_card_line: 20, opponent_card_line: 21 };
    let t = Table::new(lines.my_card_line, all.my.lx, all.my.jq, all.my.desk);
    assert_eq!((t.hand.entity, t.lx.entity, t.jq.entity, t.desk.entity), (20, 3, 4, 1));
}
