use vstd::prelude::*;

use crate::bet::Bet;
use crate::bet::BetStatus;
use crate::bet::bet_wf;
use crate::bet::claim_arith_fails;
use crate::bet::lemma_open_reservation_le_sum;
use crate::bet::lemma_sum_push;
use crate::bet::lemma_sum_update;
use crate::bet::max_payout_spec;
use crate::bet::payout_spec;
use crate::bet::premium_spec;
use crate::bet::strike_price_spec;
use crate::bet::sum_reserved_open;
use crate::errors::BettingError;
use crate::pool::ContractState;
use crate::registry::UserBets;
use crate::registry::registry_append;
use crate::registry::registry_appended;
use crate::registry::registry_wf;
use vstd::arithmetic::div_mod::lemma_div_is_ordered;
use vstd::arithmetic::mul::lemma_mul_inequality;

verus! {

/// The betting engine: the collateral pool, the arena of bets (a bet's
/// identifier is its index), and the per-owner registry.
///
/// Oracle prices and the current time are read by the caller and handed
/// in as plain values; every operation is all-or-nothing on this state.
#[derive(Debug)]
pub struct BettingEngine {
    pub pool: ContractState,
    pub bets: Vec<Bet>,
    pub user_bets: Vec<UserBets>,
}

impl BettingEngine {
    /// The engine's invariant, preserved by every operation:
    /// - the pool is solvent (locked collateral never exceeds its funds);
    /// - the locked total equals the sum of the reservations of the open
    ///   bets;
    /// - the registry is consistent with the arena of bets;
    /// - every stored bet's strike price is at or below its cap price.
    pub open spec fn wf(self) -> bool {
        &&& self.pool.wf()
        &&& self.pool.total_locked_usdc == sum_reserved_open(self.bets@)
        &&& registry_wf(self.user_bets@, self.bets@)
        &&& forall|i: int| 0 <= i < self.bets@.len() ==> bet_wf(#[trigger] self.bets@[i])
    }

    /// A fresh engine over a pool holding `balance`, with no bets.
    pub fn new(balance: u64) -> (e: BettingEngine)
        ensures
            e.wf(),
            e.pool.balance == balance,
            e.pool.total_locked_usdc == 0,
            e.bets@.len() == 0,
            e.user_bets@.len() == 0,
    {
        let e = BettingEngine {
            pool: ContractState::new(balance),
            bets: Vec::new(),
            user_bets: Vec::new(),
        };
        proof {
            assert(sum_reserved_open(e.bets@) == 0);
        }
        e
    }

    /// Every check of a placement passes: the percentages are valid, the
    /// checked arithmetic fits in the machine words, the pool can back
    /// the reservation, and the oracle delivered a price.
    pub open spec fn place_succeeds(
        s: BettingEngine,
        notional_amount: u64,
        premium_percentage: u64,
        strike_price_percentage: u64,
        strike_cap_percentage: u64,
        start_price: Option<u64>,
        now: i64,
    ) -> bool {
        &&& premium_percentage <= 1000
        &&& strike_cap_percentage > strike_price_percentage
        &&& notional_amount * premium_percentage <= u64::MAX
        &&& notional_amount * (strike_cap_percentage - strike_price_percentage) <= u64::MAX
        &&& s.pool.available() >= max_payout_spec(
            notional_amount,
            strike_price_percentage,
            strike_cap_percentage,
        )
        &&& start_price is Some
        &&& start_price->0 * strike_price_percentage <= u64::MAX
        &&& s.pool.balance + premium_spec(notional_amount, premium_percentage) <= u64::MAX
        &&& now + 172800 <= i64::MAX
    }

    /// The error a failing placement returns, by the order the checks are
    /// made in.
    pub open spec fn place_failure(
        s: BettingEngine,
        notional_amount: u64,
        premium_percentage: u64,
        strike_price_percentage: u64,
        strike_cap_percentage: u64,
        start_price: Option<u64>,
        now: i64,
    ) -> BettingError {
        if premium_percentage > 1000 {
            BettingError::PremiumTooHigh
        } else if strike_cap_percentage <= strike_price_percentage {
            BettingError::InvalidStrikeCap
        } else if notional_amount * premium_percentage > u64::MAX {
            BettingError::CalculationError
        } else if notional_amount * (strike_cap_percentage - strike_price_percentage)
            > u64::MAX {
            BettingError::CalculationError
        } else if s.pool.available() < max_payout_spec(
            notional_amount,
            strike_price_percentage,
            strike_cap_percentage,
        ) {
            BettingError::InsufficientContractBalance
        } else if start_price is None {
            BettingError::PythError
        } else {
            BettingError::CalculationError
        }
    }

    /// The bet a successful placement creates.
    pub open spec fn placed_bet(
        user: u64,
        token: u64,
        notional_amount: u64,
        premium_percentage: u64,
        strike_price_percentage: u64,
        strike_cap_percentage: u64,
        start_price: u64,
        now: i64,
    ) -> Bet {
        Bet {
            user,
            token,
            status: BetStatus::Open,
            notional_amount,
            premium_amount: premium_spec(notional_amount, premium_percentage) as u64,
            start_price,
            strike_price: strike_price_spec(start_price, strike_price_percentage) as u64,
            strike_cap_percentage,
            reserved_payout: max_payout_spec(
                notional_amount,
                strike_price_percentage,
                strike_cap_percentage,
            ) as u64,
            created_at: now,
            expiry: (now + 86400) as i64,
            claim_window_end: (now + 172800) as i64,
        }
    }

    /// Open a position: validate the percentages, compute the premium and
    /// the worst-case payout, check the pool can back it, take the oracle
    /// price, credit the premium to the pool, lock the reservation, and
    /// record the bet under its owner. All of it commits, or none: any
    /// failure returns the engine unchanged.
    ///
    /// `start_price` is the oracle read, `None` if the oracle failed;
    /// `now` is the clock read. Returns the new bet's identifier.
    pub fn place_bet(
        &mut self,
        user: u64,
        token: u64,
        now: i64,
        notional_amount: u64,
        premium_percentage: u64,
        strike_price_percentage: u64,
        strike_cap_percentage: u64,
        start_price: Option<u64>,
    ) -> (r: Result<usize, BettingError>)
        requires
            old(self).wf(),
            notional_amount > 0,
        ensures
            final(self).wf(),
            Self::place_succeeds(
                *old(self),
                notional_amount,
                premium_percentage,
                strike_price_percentage,
                strike_cap_percentage,
                start_price,
                now,
            ) ==> {
                &&& r is Ok
                &&& r->Ok_0 == old(self).bets@.len()
                &&& final(self).bets@ == old(self).bets@.push(
                    Self::placed_bet(
                        user,
                        token,
                        notional_amount,
                        premium_percentage,
                        strike_price_percentage,
                        strike_cap_percentage,
                        start_price->0,
                        now,
                    ),
                )
                &&& final(self).pool.balance == old(self).pool.balance + premium_spec(
                    notional_amount,
                    premium_percentage,
                )
                &&& final(self).pool.total_locked_usdc == old(self).pool.total_locked_usdc
                    + max_payout_spec(
                    notional_amount,
                    strike_price_percentage,
                    strike_cap_percentage,
                )
                &&& registry_appended(
                    old(self).user_bets@,
                    final(self).user_bets@,
                    user,
                    (old(self).bets@.len() as usize),
                )
            },
            !Self::place_succeeds(
                *old(self),
                notional_amount,
                premium_percentage,
                strike_price_percentage,
                strike_cap_percentage,
                start_price,
                now,
            ) ==> r == Err::<usize, BettingError>(
                Self::place_failure(
                    *old(self),
                    notional_amount,
                    premium_percentage,
                    strike_price_percentage,
                    strike_cap_percentage,
                    start_price,
                    now,
                ),
            ) && *final(self) == *old(self),
    {
        if premium_percentage > 1000 {
            return Err(BettingError::PremiumTooHigh);
        }
        if strike_cap_percentage <= strike_price_percentage {
            return Err(BettingError::InvalidStrikeCap);
        }
        let premium_amount = match notional_amount.checked_mul(premium_percentage) {
            Some(x) => x / 10000,
            None => { return Err(BettingError::CalculationError) },
        };
        let max_payout = match notional_amount.checked_mul(
            strike_cap_percentage - strike_price_percentage,
        ) {
            Some(x) => x / 10000,
            None => { return Err(BettingError::CalculationError) },
        };
        let available = self.pool.balance - self.pool.total_locked_usdc;
        if available < max_payout {
            return Err(BettingError::InsufficientContractBalance);
        }
        let price = match start_price {
            Some(p) => p,
            None => { return Err(BettingError::PythError) },
        };
        let strike_price = match price.checked_mul(strike_price_percentage) {
            Some(x) => x / 10000,
            None => { return Err(BettingError::CalculationError) },
        };
        if self.pool.balance.checked_add(premium_amount).is_none() {
            return Err(BettingError::CalculationError);
        }
        let expiry = match now.checked_add(86400) {
            Some(t) => t,
            None => { return Err(BettingError::CalculationError) },
        };
        let claim_window_end = match expiry.checked_add(86400) {
            Some(t) => t,
            None => { return Err(BettingError::CalculationError) },
        };
        // Every check has passed; the effects below commit together.
        let bet_id = self.bets.len();
        let bet = Bet {
            user,
            token,
            status: BetStatus::Open,
            notional_amount,
            premium_amount,
            start_price: price,
            strike_price,
            strike_cap_percentage,
            reserved_payout: max_payout,
            created_at: now,
            expiry,
            claim_window_end,
        };
        proof {
            assert(price * strike_price_percentage <= price * strike_cap_percentage) by {
                lemma_mul_inequality(
                    strike_price_percentage as int,
                    strike_cap_percentage as int,
                    price as int,
                );
            }
            lemma_div_is_ordered(
                price * strike_price_percentage,
                price * strike_cap_percentage,
                10000,
            );
            assert(bet_wf(bet));
        }
        let dr = self.pool.deposit(premium_amount);
        match dr {
            Ok(_) => (),
            Err(e) => { return Err(e) },
        }
        let lr = self.pool.lock(max_payout);
        match lr {
            Ok(_) => (),
            Err(e) => { return Err(e) },
        }
        self.bets.push(bet);
        registry_append(&mut self.user_bets, user, bet_id);
        proof {
            lemma_sum_push(old(self).bets@, bet);
            assert forall|i: int, k: int|
                0 <= i < self.user_bets@.len() && 0 <= k < self.user_bets@[i].bet_ids@.len()
                    implies (#[trigger] self.user_bets@[i].bet_ids@[k]) < self.bets@.len()
                && self.bets@[self.user_bets@[i].bet_ids@[k] as int].user
                == self.user_bets@[i].user by {
                let before = old(self).user_bets@;
                let after = self.user_bets@;
                if crate::registry::has_user(before, user) {
                    let wi = choose|w: int|
                        0 <= w < before.len() && (#[trigger] before[w].user) == user
                            && after[w].user == user && after[w].bet_ids@
                            == before[w].bet_ids@.push((bet_id as usize)) && (forall|j: int|
                            0 <= j < before.len() && j != w ==> after[j] == before[j]);
                    if i == wi {
                        if k < before[wi].bet_ids@.len() {
                            assert(after[i].bet_ids@[k] == before[wi].bet_ids@[k]);
                        } else {
                            assert(after[i].bet_ids@[k] == bet_id);
                        }
                    } else {
                        assert(after[i] == before[i]);
                    }
                } else {
                    if i < before.len() {
                        assert(after[i] == before[i]);
                    } else {
                        assert(after[i].bet_ids@ == seq![(bet_id as usize)]);
                        assert(after[i].bet_ids@[k] == bet_id);
                    }
                }
            }
        }
        Ok(bet_id)
    }

    /// Every check of a claim passes: the bet is still open, the time is
    /// past expiry but within the claim window, the oracle delivered a
    /// price, and the winning-path arithmetic fits in the machine words.
    pub open spec fn claim_succeeds(
        s: BettingEngine,
        bet_id: int,
        now: i64,
        current_price: Option<u64>,
    ) -> bool {
        let b = s.bets@[bet_id];
        &&& b.status == BetStatus::Open
        &&& now > b.expiry
        &&& now <= b.claim_window_end
        &&& current_price is Some
        &&& !claim_arith_fails(b, current_price->0)
    }

    /// The error a failing claim returns, by the order the checks are
    /// made in.
    pub open spec fn claim_failure(
        s: BettingEngine,
        bet_id: int,
        now: i64,
        current_price: Option<u64>,
    ) -> BettingError {
        let b = s.bets@[bet_id];
        if b.status != BetStatus::Open {
            BettingError::AlreadyClaimed
        } else if now <= b.expiry {
            BettingError::BetNotExpired
        } else if now > b.claim_window_end {
            BettingError::ClaimPeriodExpired
        } else if current_price is None {
            BettingError::PythError
        } else {
            BettingError::CalculationError
        }
    }

    /// Settle an open bet after expiry, within its claim window. A losing
    /// bet (price below the strike) pays nothing; a winning bet pays the
    /// notional scaled by the capped price gain over the strike, never
    /// more than was reserved at placement. The full reservation leaves
    /// the locked total: the payout leaves the pool, the rest returns to
    /// availability. Any failure returns the engine unchanged.
    ///
    /// `current_price` is the oracle read, `None` if the oracle failed;
    /// `now` is the clock read. Returns the payout.
    pub fn claim_bet(&mut self, bet_id: usize, now: i64, current_price: Option<u64>) -> (r:
        Result<u64, BettingError>)
        requires
            old(self).wf(),
            bet_id < old(self).bets@.len(),
        ensures
            final(self).wf(),
            Self::claim_succeeds(*old(self), bet_id as int, now, current_price) ==> {
                let b = old(self).bets@[bet_id as int];
                &&& r is Ok
                &&& r->Ok_0 == payout_spec(b, current_price->0)
                &&& r->Ok_0 <= b.reserved_payout
                &&& final(self).bets@ == old(self).bets@.update(
                    bet_id as int,
                    (Bet { status: BetStatus::Claimed, ..b }),
                )
                &&& final(self).pool.balance == old(self).pool.balance - payout_spec(
                    b,
                    current_price->0,
                )
                &&& final(self).pool.total_locked_usdc == old(self).pool.total_locked_usdc
                    - b.reserved_payout
                &&& final(self).user_bets@ == old(self).user_bets@
            },
            Self::claim_succeeds(*old(self), bet_id as int, now, current_price)
                && current_price->0 < old(self).bets@[bet_id as int].strike_price ==> r == Ok::<
                u64,
                BettingError,
            >(0) && final(self).pool.balance == old(self).pool.balance,
            !Self::claim_succeeds(*old(self), bet_id as int, now, current_price) ==> r == Err::<
                u64,
                BettingError,
            >(Self::claim_failure(*old(self), bet_id as int, now, current_price)) && *final(self)
                == *old(self),
    {
        let b = self.bets[bet_id];
        match b.status {
            BetStatus::Open => (),
            _ => { return Err(BettingError::AlreadyClaimed) },
        }
        if now <= b.expiry {
            return Err(BettingError::BetNotExpired);
        }
        if now > b.claim_window_end {
            return Err(BettingError::ClaimPeriodExpired);
        }
        let price = match current_price {
            Some(p) => p,
            None => { return Err(BettingError::PythError) },
        };
        let payout: u64;
        if price >= b.strike_price {
            let cap_price = match b.start_price.checked_mul(b.strike_cap_percentage) {
                Some(x) => x / 10000,
                None => { return Err(BettingError::CalculationError) },
            };
            let payout_price = if price <= cap_price {
                price
            } else {
                cap_price
            };
            let gain = payout_price - b.strike_price;
            let raw_numerator = match b.notional_amount.checked_mul(gain) {
                Some(x) => x,
                None => { return Err(BettingError::CalculationError) },
            };
            if b.start_price == 0 {
                return Err(BettingError::CalculationError);
            }
            let raw = raw_numerator / b.start_price;
            payout = if raw > b.reserved_payout {
                b.reserved_payout
            } else {
                raw
            };
        } else {
            payout = 0;
        }
        proof {
            lemma_open_reservation_le_sum(self.bets@, bet_id as int);
        }
        let rr = self.pool.release(b.reserved_payout);
        match rr {
            Ok(_) => (),
            Err(e) => { return Err(e) },
        }
        let wr = self.pool.withdraw(payout);
        match wr {
            Ok(_) => (),
            Err(e) => { return Err(e) },
        }
        let settled = Bet { status: BetStatus::Claimed, ..b };
        self.bets[bet_id] = settled;
        proof {
            lemma_sum_update(old(self).bets@, bet_id as int, settled);
            self.lemma_settle_preserves_registry(*old(self), bet_id as int);
        }
        Ok(payout)
    }

    /// The bet is still open and the claim window has ended, so the
    /// reservation may be forfeited.
    pub open spec fn unlock_succeeds(s: BettingEngine, bet_id: int, now: i64) -> bool {
        let b = s.bets@[bet_id];
        b.status == BetStatus::Open && now > b.claim_window_end
    }

    /// The error a failing forfeiture returns.
    pub open spec fn unlock_failure(s: BettingEngine, bet_id: int, now: i64) -> BettingError {
        if s.bets@[bet_id].status != BetStatus::Open {
            BettingError::AlreadyClaimed
        } else {
            BettingError::ClaimPeriodNotExpired
        }
    }

    /// Forfeit an open bet whose claim window has ended: its reservation
    /// returns to the pool's availability and the bet closes for good.
    /// Nothing is paid to anyone; callable by any party. Any failure
    /// returns the engine unchanged.
    ///
    /// `now` is the clock read. Returns the released amount.
    pub fn unlock_expired_bet(&mut self, bet_id: usize, now: i64) -> (r: Result<
        u64,
        BettingError,
    >)
        requires
            old(self).wf(),
            bet_id < old(self).bets@.len(),
        ensures
            final(self).wf(),
            Self::unlock_succeeds(*old(self), bet_id as int, now) ==> {
                let b = old(self).bets@[bet_id as int];
                &&& r == Ok::<u64, BettingError>(b.reserved_payout)
                &&& final(self).bets@ == old(self).bets@.update(
                    bet_id as int,
                    (Bet { status: BetStatus::Forfeited, ..b }),
                )
                &&& final(self).pool.balance == old(self).pool.balance
                &&& final(self).pool.total_locked_usdc == old(self).pool.total_locked_usdc
                    - b.reserved_payout
                &&& final(self).user_bets@ == old(self).user_bets@
            },
            !Self::unlock_succeeds(*old(self), bet_id as int, now) ==> r == Err::<
                u64,
                BettingError,
            >(Self::unlock_failure(*old(self), bet_id as int, now)) && *final(self) == *old(self),
    {
        let b = self.bets[bet_id];
        match b.status {
            BetStatus::Open => (),
            _ => { return Err(BettingError::AlreadyClaimed) },
        }
        if now <= b.claim_window_end {
            return Err(BettingError::ClaimPeriodNotExpired);
        }
        proof {
            lemma_open_reservation_le_sum(self.bets@, bet_id as int);
        }
        let rr = self.pool.release(b.reserved_payout);
        match rr {
            Ok(_) => (),
            Err(e) => { return Err(e) },
        }
        let settled = Bet { status: BetStatus::Forfeited, ..b };
        self.bets[bet_id] = settled;
        proof {
            lemma_sum_update(old(self).bets@, bet_id as int, settled);
            self.lemma_settle_preserves_registry(*old(self), bet_id as int);
        }
        Ok(b.reserved_payout)
    }

    /// Settling a bet only changes its status, so the registry stays
    /// consistent with the arena: lengths, owners and identifiers are
    /// untouched.
    proof fn lemma_settle_preserves_registry(self, before: BettingEngine, bet_id: int)
        requires
            registry_wf(before.user_bets@, before.bets@),
            0 <= bet_id < before.bets@.len(),
            self.user_bets@ == before.user_bets@,
            self.bets@.len() == before.bets@.len(),
            forall|i: int|
                0 <= i < before.bets@.len() ==> (#[trigger] self.bets@[i]).user
                    == before.bets@[i].user,
        ensures
            registry_wf(self.user_bets@, self.bets@),
    {
        assert forall|i: int, k: int|
            0 <= i < self.user_bets@.len() && 0 <= k < self.user_bets@[i].bet_ids@.len()
                implies (#[trigger] self.user_bets@[i].bet_ids@[k]) < self.bets@.len()
            && self.bets@[self.user_bets@[i].bet_ids@[k] as int].user
            == self.user_bets@[i].user by {
            assert(before.user_bets@[i].bet_ids@[k] < before.bets@.len());
        }
    }
}

} // verus!
