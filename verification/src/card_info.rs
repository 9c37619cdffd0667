//! Card data.

pub mod card_enums;

use vstd::prelude::*;
use vstd::string::StringExecFns;
use crate::card_info::card_enums::{attr_named, card_type_named, race_named, Attr, CardType, Race};

verus! {

/// What is printed on a card. It does not change while the card moves from
/// pool to pool.
#[derive(Clone, Debug)]
pub struct CardInfo {
    /// The card's number, which also names its picture.
    pub id: String,
    /// The name shown to the player.
    pub name: String,
    /// The category.
    pub card_type: CardType,
    /// The attribute.
    pub attr: Attr,
    /// The race.
    pub race: Race,
    /// How many cards must be paid to set this one.
    pub cost: usize,
    /// The attack power.
    pub ack: u32,
}

impl CardInfo {
    /// A card from its written form, in which category, attribute and race
    /// are given by name. It is refused where one of the three names is
    /// unknown.
    pub fn from_names(
        id: String,
        name: String,
        card_type: &str,
        attr: &str,
        race: &str,
        cost: usize,
        ack: u32,
    ) -> (r: Result<CardInfo, ()>)
        ensures
            r is Ok <==> card_type_named(card_type@) is Some && attr_named(attr@) is Some && race_named(
                race@,
            ) is Some,
            r is Ok ==> r->Ok_0 == (CardInfo {
                id,
                name,
                card_type: card_type_named(card_type@)->Some_0,
                attr: attr_named(attr@)->Some_0,
                race: race_named(race@)->Some_0,
                cost,
                ack,
            }),
    {
        match (CardType::from_str(card_type), Attr::from_str(attr), Race::from_str(race)) {
            (Ok(t), Ok(a), Ok(r)) => Ok(CardInfo { id, name, card_type: t, attr: a, race: r, cost, ack }),
            _ => Err(()),
        }
    }

    /// The path of the picture of the card's face.
    pub fn get_face_mal(&self) -> (path: String)
        ensures
            path@ == "cards/"@ + self.id@ + ".png"@,
    {
        <String as StringExecFns>::from_str("cards/").concat(self.id.as_str()).concat(".png")
    }

    /// The path of the picture shared by the backs of all cards.
    pub fn get_back_mal(&self) -> (path: String)
        ensures
            path@ == "cards/back.png"@,
    {
        <String as StringExecFns>::from_str("cards/back.png")
    }

    /// The card's number.
    pub fn get_id(&self) -> (id: String)
        ensures
            id@ == self.id@,
    {
        self.id.clone()
    }
}

} // verus!
