use vstd::prelude::*;

verus! {

/// Failure modes of the betting engine.
///
/// Every operation either commits all of its effects or returns one of
/// these and leaves the engine exactly as it was.
#[derive(Clone, Copy, Debug, PartialEq, Eq, Structural)]
pub enum BettingError {
    /// The bet has already been settled (claimed or forfeited).
    AlreadyClaimed,
    /// The bet's expiry has not been reached yet.
    BetNotExpired,
    /// The claim window has closed.
    ClaimPeriodExpired,
    /// The premium percentage exceeds the allowed maximum.
    PremiumTooHigh,
    /// The cap percentage does not exceed the strike percentage.
    InvalidStrikeCap,
    /// Checked arithmetic overflowed, underflowed, or divided by zero.
    CalculationError,
    /// The pool's available funds cannot back the requested reservation.
    InsufficientContractBalance,
    /// The price oracle did not deliver a price.
    PythError,
    /// The claim window is still open, so the reservation cannot be forfeited.
    ClaimPeriodNotExpired,
}

} // verus!
