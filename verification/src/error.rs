//! Why a placement attempt or a commit is turned down.

use vstd::prelude::*;

verus! {

/// The reasons for which the placement rules turn an attempt down. Every one
/// of them is local: nothing has been changed when it is returned.
#[derive(Debug, Clone, Copy, PartialEq, Eq, Structural)]
pub enum PlacementError {
    /// The zone does not accept cards of this category.
    IneligibleCategory,
    /// The zone holds a single occupant and is already taken.
    OccupancyBlocked,
    /// The cost is more than the hand and the passion zone can pay together.
    Unsatisfiable,
    /// The current selection breaks a bound, or there is nothing to confirm.
    InvalidSelection,
    /// The card is arcane: how such a card is paid for is not laid down, so
    /// it is never set through this path.
    PaymentUndefined,
    /// Another selection is still open; one placement is handled at a time.
    SessionOpen,
}

} // verus!
