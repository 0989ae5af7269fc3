//! Match outcome and rematch negotiation values.

use vstd::prelude::*;

verus! {

/// A player's vote in the rematch negotiation that follows a finished match.
#[derive(Clone, Copy, Debug, PartialEq, Eq, Structural)]
pub enum RematchStatus {
    Yes,
    No,
    Maybe,
}

/// The lifecycle of a match: running, decided (with the winning slot), or in
/// rematch negotiation.
#[derive(Clone, Copy, Debug, PartialEq, Eq, Structural)]
pub enum MatchStatus {
    InProgress,
    Over(usize),
    Rematch(RematchStatus),
}

} // verus!
