//! The hands of the two players.

use vstd::prelude::*;
use crate::pool::EntityId;

verus! {

/// The hands of both players.
#[derive(Clone, Copy, Debug, PartialEq, Eq, Structural)]
pub struct CardLineResource {
    pub my_card_line: EntityId,
    pub opponent_card_line: EntityId,
}

} // verus!
