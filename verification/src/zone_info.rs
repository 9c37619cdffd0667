//! The zones of the field: what each is for and how it is shown.

use vstd::prelude::*;
use vstd::string::StringExecFns;
use crate::pool::EntityId;

verus! {

/// What a zone is for.
#[derive(Clone, Copy, Debug, PartialEq, Eq, Structural)]
pub enum ZoneType {
    /// The strip between the two players.
    Nothing,
    /// A battle field.
    BattleField,
    /// The preparation field.
    PreparationField,
    /// A safe house.
    SafeField,
    /// The reason zone.
    LxField,
    /// The passion zone.
    JqField,
    /// The deck.
    DeskField,
    /// The graveyard.
    GraveField,
}

/// A zone of the field and the player it belongs to.
#[derive(Clone, Copy, Debug, PartialEq, Eq, Structural)]
pub struct ZoneInfo {
    /// What the zone is for.
    pub zone_type: ZoneType,
    /// Whether the zone belongs to the opponent.
    pub opponent: bool,
}

/// How a zone is painted.
#[derive(Clone, Debug)]
pub enum ZoneMaterial {
    /// Plain black.
    Black,
    /// Plain white.
    White,
    /// The picture at this path, unlit.
    Texture(String),
}

/// The name of the picture of a zone, for the zones that have one.
pub open spec fn picture_name(zone_type: ZoneType) -> Option<Seq<char>> {
    match zone_type {
        ZoneType::BattleField => Some("stone_1"@),
        ZoneType::PreparationField => Some("stone_2"@),
        ZoneType::SafeField => Some("safe"@),
        ZoneType::LxField => Some("lx"@),
        ZoneType::JqField => Some("jq"@),
        _ => None,
    }
}

impl ZoneInfo {
    /// How the zone is painted: the strip in the middle black, the deck and
    /// the graveyard white, every other zone with its picture.
    pub fn get_mal(&self) -> (material: ZoneMaterial)
        ensures
            self.zone_type == ZoneType::Nothing ==> material is Black,
            self.zone_type == ZoneType::DeskField || self.zone_type == ZoneType::GraveField
                ==> material is White,
            picture_name(self.zone_type) is Some ==> material is Texture && material->Texture_0@
                == "zones/"@ + picture_name(self.zone_type)->Some_0 + ".png"@,
    {
        let name: &str = match self.zone_type {
            ZoneType::Nothing => {
                return ZoneMaterial::Black;
            },
            ZoneType::DeskField => {
                return ZoneMaterial::White;
            },
            ZoneType::GraveField => {
                return ZoneMaterial::White;
            },
            ZoneType::BattleField => "stone_1",
            ZoneType::PreparationField => "stone_2",
            ZoneType::SafeField => "safe",
            ZoneType::LxField => "lx",
            ZoneType::JqField => "jq",
        };
        ZoneMaterial::Texture(<String as StringExecFns>::from_str("zones/").concat(name).concat(".png"))
    }
}

/// The zones of one player.
#[derive(Clone, Copy, Debug, PartialEq, Eq, Structural)]
pub struct AllZoneInfo {
    pub desk: EntityId,
    pub grave: EntityId,
    pub lx: EntityId,
    pub jq: EntityId,
    pub battle1: EntityId,
    pub battle2: EntityId,
    pub battle3: EntityId,
    pub prepare: EntityId,
    pub safe1: EntityId,
    pub safe2: EntityId,
    pub safe3: EntityId,
    pub safe4: EntityId,
}

/// The zones of both players.
#[derive(Clone, Copy, Debug, PartialEq, Eq, Structural)]
pub struct AllZoneInfoResource {
    pub my: AllZoneInfo,
    pub opponent: AllZoneInfo,
}

} // verus!
