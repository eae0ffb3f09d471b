use vstd::prelude::*;

use crate::bet::Bet;
use crate::bet::BetStatus;
use crate::bet::payout_spec;
use crate::bet::sum_reserved_open;
use crate::engine::BettingEngine;
use crate::errors::BettingError;

verus! {

/// Solvency: in a well-formed engine the locked collateral equals the sum
/// of the reservations of the open bets, never exceeds the pool's funds,
/// and the available amount is never negative. Every engine operation
/// requires and re-establishes well-formedness, so this holds at all
/// times.
pub proof fn lemma_pool_solvency(e: BettingEngine)
    requires
        e.wf(),
    ensures
        e.pool.total_locked_usdc == sum_reserved_open(e.bets@),
        e.pool.total_locked_usdc <= e.pool.balance,
        e.pool.available() >= 0,
{
}

/// A claim never pays more than the collateral reserved at placement.
pub proof fn lemma_payout_within_reservation(b: Bet, current_price: u64)
    ensures
        payout_spec(b, current_price) <= b.reserved_payout,
{
}

/// Finalized states are terminal: on a bet that is no longer open, a
/// claim and a forfeiture both fail `AlreadyClaimed` — and a failing
/// operation leaves the engine unchanged.
pub proof fn lemma_finalized_is_terminal(
    e: BettingEngine,
    bet_id: int,
    now: i64,
    current_price: Option<u64>,
)
    requires
        0 <= bet_id < e.bets@.len(),
        e.bets@[bet_id].status != BetStatus::Open,
    ensures
        !BettingEngine::claim_succeeds(e, bet_id, now, current_price),
        BettingEngine::claim_failure(e, bet_id, now, current_price)
            == BettingError::AlreadyClaimed,
        !BettingEngine::unlock_succeeds(e, bet_id, now),
        BettingEngine::unlock_failure(e, bet_id, now) == BettingError::AlreadyClaimed,
{
}

/// A losing claim pays nothing: below the strike the payout is zero, so
/// the whole reservation returns to the pool's availability.
pub proof fn lemma_losing_claim_pays_nothing(b: Bet, current_price: u64)
    requires
        current_price < b.strike_price,
    ensures
        payout_spec(b, current_price) == 0,
{
}

} // verus!
