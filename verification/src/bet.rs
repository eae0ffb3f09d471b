use vstd::prelude::*;

verus! {

/// Lifecycle state of a bet.
///
/// Transitions are monotonic and terminal: `Open -> Claimed` (a timely
/// claim) or `Open -> Forfeited` (nobody claimed within the window).
/// A bet never leaves a terminal state or re-enters `Open`.
#[derive(Clone, Copy, Debug, PartialEq, Eq, Structural)]
pub enum BetStatus {
    Open,
    Claimed,
    Forfeited,
}

/// One option position and its resolved or unresolved state.
///
/// Percentages are in basis points (10000 = 100%). `reserved_payout` is
/// the worst-case (capped) payout, set aside in the pool at placement.
#[derive(Clone, Copy, Debug)]
pub struct Bet {
    /// Identity of the position holder.
    pub user: u64,
    /// Identity of the asset the position references.
    pub token: u64,
    pub status: BetStatus,
    /// Amount against which percentage calculations are scaled; positive.
    pub notional_amount: u64,
    /// Upfront fee paid at placement, non-refundable.
    pub premium_amount: u64,
    /// Oracle price read at placement.
    pub start_price: u64,
    /// Price level at or above which the position is winning.
    pub strike_price: u64,
    /// Cap percentage in basis points, relative to the start price.
    pub strike_cap_percentage: u64,
    /// Collateral locked at placement; the payout never exceeds it.
    pub reserved_payout: u64,
    /// Timestamp of placement.
    pub created_at: i64,
    /// One day after placement; claims are accepted only after this.
    pub expiry: i64,
    /// One day after expiry; claims are accepted only up to this.
    pub claim_window_end: i64,
}

/// `floor(amount * bp / 10000)`: scale an amount by a percentage given in
/// basis points.
pub open spec fn scaled_bp(amount: int, bp: int) -> int {
    amount * bp / 10000
}

/// The premium owed at placement.
pub open spec fn premium_spec(notional: u64, premium_bp: u64) -> int {
    scaled_bp(notional as int, premium_bp as int)
}

/// The worst-case payout, reserved in the pool for the life of the bet.
pub open spec fn max_payout_spec(notional: u64, strike_bp: u64, cap_bp: u64) -> int {
    scaled_bp(notional as int, cap_bp - strike_bp)
}

/// The strike price derived from the start price at placement.
pub open spec fn strike_price_spec(start_price: u64, strike_bp: u64) -> int {
    scaled_bp(start_price as int, strike_bp as int)
}

/// The price level above which the payout no longer grows.
pub open spec fn cap_price_spec(b: Bet) -> int {
    scaled_bp(b.start_price as int, b.strike_cap_percentage as int)
}

/// The price the payout is computed from: the claim-time price, capped.
pub open spec fn payout_price_spec(b: Bet, current_price: u64) -> int {
    if current_price <= cap_price_spec(b) {
        current_price as int
    } else {
        cap_price_spec(b)
    }
}

/// The uncapped payout of a winning bet: the notional scaled by the price
/// gain over the strike, relative to the start price.
pub open spec fn winning_payout_raw_spec(b: Bet, current_price: u64) -> int {
    b.notional_amount * (payout_price_spec(b, current_price) - b.strike_price) / (
    b.start_price as int)
}

/// The payout of a claim: zero for a losing bet, otherwise the raw winning
/// payout clamped to the reservation made at placement.
pub open spec fn payout_spec(b: Bet, current_price: u64) -> int {
    if current_price < b.strike_price {
        0
    } else if winning_payout_raw_spec(b, current_price) > b.reserved_payout {
        b.reserved_payout as int
    } else {
        winning_payout_raw_spec(b, current_price)
    }
}

/// The checked arithmetic of the winning claim path fails: an intermediate
/// product does not fit in a `u64`, or the start price is zero. A losing
/// claim performs no arithmetic and never fails this way.
pub open spec fn claim_arith_fails(b: Bet, current_price: u64) -> bool {
    current_price >= b.strike_price && {
        ||| b.start_price * b.strike_cap_percentage > u64::MAX
        ||| b.start_price == 0
        ||| b.notional_amount * (payout_price_spec(b, current_price) - b.strike_price) > u64::MAX
    }
}

/// Internal consistency of a stored bet: the strike never exceeds the cap
/// price, both being derived from the same start price with the cap
/// percentage above the strike percentage.
pub open spec fn bet_wf(b: Bet) -> bool {
    b.strike_price <= cap_price_spec(b)
}

/// The collateral a bet holds reserved: its full reservation while open,
/// nothing once settled.
pub open spec fn open_reservation(b: Bet) -> int {
    if b.status == BetStatus::Open {
        b.reserved_payout as int
    } else {
        0
    }
}

/// Sum of the reservations of the bets that are still open.
pub open spec fn sum_reserved_open(bets: Seq<Bet>) -> int
    decreases bets.len(),
{
    if bets.len() == 0 {
        0
    } else {
        sum_reserved_open(bets.drop_last()) + open_reservation(bets.last())
    }
}

/// Appending a bet adds exactly its open reservation to the sum.
pub proof fn lemma_sum_push(bets: Seq<Bet>, b: Bet)
    ensures
        sum_reserved_open(bets.push(b)) == sum_reserved_open(bets) + open_reservation(b),
{
    assert(bets.push(b).drop_last() =~= bets);
    assert(bets.push(b).last() == b);
}

/// Replacing one bet changes the sum by the difference of the two
/// reservations.
pub proof fn lemma_sum_update(bets: Seq<Bet>, i: int, b: Bet)
    requires
        0 <= i < bets.len(),
    ensures
        sum_reserved_open(bets.update(i, b)) == sum_reserved_open(bets) - open_reservation(
            bets[i],
        ) + open_reservation(b),
    decreases bets.len(),
{
    let upd = bets.update(i, b);
    if i == bets.len() - 1 {
        assert(upd.drop_last() =~= bets.drop_last());
        assert(upd.last() == b);
    } else {
        assert(upd.drop_last() =~= bets.drop_last().update(i, b));
        lemma_sum_update(bets.drop_last(), i, b);
        assert(upd.last() == bets.last());
        assert(bets.drop_last()[i] == bets[i]);
    }
}

/// The sum of open reservations is never negative.
pub proof fn lemma_sum_nonneg(bets: Seq<Bet>)
    ensures
        sum_reserved_open(bets) >= 0,
    decreases bets.len(),
{
    if bets.len() > 0 {
        lemma_sum_nonneg(bets.drop_last());
    }
}

/// An open bet's reservation is covered by the sum over all open bets.
pub proof fn lemma_open_reservation_le_sum(bets: Seq<Bet>, i: int)
    requires
        0 <= i < bets.len(),
        bets[i].status == BetStatus::Open,
    ensures
        bets[i].reserved_payout <= sum_reserved_open(bets),
    decreases bets.len(),
{
    if i == bets.len() - 1 {
        lemma_sum_nonneg(bets.drop_last());
    } else {
        lemma_open_reservation_le_sum(bets.drop_last(), i);
        assert(bets.drop_last()[i] == bets[i]);
    }
}

} // verus!
