use vstd::prelude::*;

verus! {

/// Typed failure of a ledger operation.
///
/// Every failure is terminal for the attempted operation and commits no
/// partial state; propagation is always to the caller.
#[derive(Clone, Copy, Debug, PartialEq, Eq, Structural)]
pub enum BettingError {
    /// The caller is not the principal this operation is reserved to.
    Unauthorized,
    /// The race is in the wrong lifecycle phase for the requested transition.
    InvalidState,
    /// The entrant index is out of range for this race.
    InvalidEntrant,
    /// Betting was attempted on a race that is no longer open.
    EventClosed,
    /// A claim was attempted before the race finished.
    EventNotFinished,
    /// The race is finished but records no winner.
    WinnerNotSet,
    /// The bet's winnings were already paid out once.
    AlreadyClaimed,
    /// The bet backs an entrant other than the winner.
    NotWinner,
    /// The arithmetic would exceed the representable range.
    Overflow,
    /// The arithmetic is undefined, such as dividing by an empty pool.
    MathError,
    /// The vault holds less than the payout that is due.
    InsufficientVaultFunds,
}

} // verus!
