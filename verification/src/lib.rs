//! Placement rules for a collectible card game: which cards may be set on the
//! field, how a card's cost is split between the hand and the passion zone,
//! and the selection through which the player pays that cost.
//!
//! Entities are plain numbers here. Whoever shows the game hands the pools
//! in as lists of such numbers and carries out what the rules return.

pub mod card_info;
pub mod card_zone;
pub mod cost_split;
pub mod error;
pub mod hand_card;
pub mod pool;
pub mod table;
pub mod text;
pub mod ui;
pub mod zone_info;
