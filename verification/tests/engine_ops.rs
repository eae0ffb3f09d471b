use betting_engine::bet::BetStatus;
use betting_engine::engine::BettingEngine;
use betting_engine::errors::BettingError;

fn engine_with_standard_bet() -> BettingEngine {
    let mut e = BettingEngine::new(1_000_000);
    let r = e.place_bet(7, 1, 0, 1_000_000, 500, 10000, 12000, Some(100));
    assert_eq!(r, Ok(0));
    e
}

#[test]
fn scenario_a_placement() {
    let e = engine_with_standard_bet();
    let b = &e.bets[0];
    assert_eq!(b.user, 7);
    assert_eq!(b.token, 1);
    assert_eq!(b.status, BetStatus::Open);
    assert_eq!(b.notional_amount, 1_000_000);
    assert_eq!(b.premium_amount, 50_000);
    assert_eq!(b.start_price, 100);
    assert_eq!(b.strike_price, 100);
    assert_eq!(b.strike_cap_percentage, 12000);
    assert_eq!(b.reserved_payout, 200_000);
    assert_eq!(b.created_at, 0);
    assert_eq!(b.expiry, 86400);
    assert_eq!(b.claim_window_end, 172800);
    assert_eq!(e.pool.balance, 1_050_000);
    assert_eq!(e.pool.total_locked_usdc, 200_000);
    assert_eq!(e.user_bets.len(), 1);
    assert_eq!(e.user_bets[0].user, 7);
    assert_eq!(e.user_bets[0].bet_ids, vec![0]);
}

#[test]
fn scenario_b_winning_claim() {
    let mut e = engine_with_standard_bet();
    let c = e.claim_bet(0, 86401, Some(115));
    assert_eq!(c, Ok(150_000));
    assert_eq!(e.bets[0].status, BetStatus::Claimed);
    // The payout left the pool; the unused 50_000 of the reservation
    // returned to availability.
    assert_eq!(e.pool.balance, 900_000);
    assert_eq!(e.pool.total_locked_usdc, 0);
}

#[test]
fn scenario_c_losing_claim() {
    let mut e = engine_with_standard_bet();
    let c = e.claim_bet(0, 86401, Some(90));
    assert_eq!(c, Ok(0));
    assert_eq!(e.bets[0].status, BetStatus::Claimed);
    // Nothing was paid; the full 200_000 reservation was released.
    assert_eq!(e.pool.balance, 1_050_000);
    assert_eq!(e.pool.total_locked_usdc, 0);
}

#[test]
fn scenario_d_premature_claim() {
    let mut e = engine_with_standard_bet();
    // At expiry exactly is still too early: the claim opens strictly after.
    let c = e.claim_bet(0, 86400, Some(115));
    assert_eq!(c, Err(BettingError::BetNotExpired));
    assert_eq!(e.bets[0].status, BetStatus::Open);
    assert_eq!(e.pool.balance, 1_050_000);
    assert_eq!(e.pool.total_locked_usdc, 200_000);
}

#[test]
fn scenario_e_forfeiture() {
    let mut e = engine_with_standard_bet();
    // The window's last instant still refuses forfeiture.
    let early = e.unlock_expired_bet(0, 172800);
    assert_eq!(early, Err(BettingError::ClaimPeriodNotExpired));
    assert_eq!(e.bets[0].status, BetStatus::Open);
    let u = e.unlock_expired_bet(0, 172801);
    assert_eq!(u, Ok(200_000));
    assert_eq!(e.bets[0].status, BetStatus::Forfeited);
    assert_eq!(e.pool.balance, 1_050_000);
    assert_eq!(e.pool.total_locked_usdc, 0);
    // A later claim on the forfeited bet fails and changes nothing.
    let c = e.claim_bet(0, 172801, Some(115));
    assert_eq!(c, Err(BettingError::AlreadyClaimed));
    assert_eq!(e.bets[0].status, BetStatus::Forfeited);
    assert_eq!(e.pool.balance, 1_050_000);
    assert_eq!(e.pool.total_locked_usdc, 0);
}

#[test]
fn second_claim_fails_already_claimed() {
    let mut e = engine_with_standard_bet();
    assert_eq!(e.claim_bet(0, 86401, Some(115)), Ok(150_000));
    let again = e.claim_bet(0, 86402, Some(200));
    assert_eq!(again, Err(BettingError::AlreadyClaimed));
    assert_eq!(e.pool.balance, 900_000);
    assert_eq!(e.pool.total_locked_usdc, 0);
    let unlock = e.unlock_expired_bet(0, 200_000);
    assert_eq!(unlock, Err(BettingError::AlreadyClaimed));
    assert_eq!(e.pool.balance, 900_000);
    assert_eq!(e.pool.total_locked_usdc, 0);
}

#[test]
fn claim_after_window_fails() {
    let mut e = engine_with_standard_bet();
    let c = e.claim_bet(0, 172801, Some(115));
    assert_eq!(c, Err(BettingError::ClaimPeriodExpired));
    assert_eq!(e.bets[0].status, BetStatus::Open);
    assert_eq!(e.pool.total_locked_usdc, 200_000);
}

#[test]
fn claim_without_price_fails() {
    let mut e = engine_with_standard_bet();
    let c = e.claim_bet(0, 86401, None);
    assert_eq!(c, Err(BettingError::PythError));
    assert_eq!(e.bets[0].status, BetStatus::Open);
    assert_eq!(e.pool.total_locked_usdc, 200_000);
}

#[test]
fn placement_rejects_high_premium() {
    let mut e = BettingEngine::new(1_000_000);
    let r = e.place_bet(7, 1, 0, 1_000_000, 1001, 10000, 12000, Some(100));
    assert_eq!(r, Err(BettingError::PremiumTooHigh));
    assert_eq!(e.bets.len(), 0);
    assert_eq!(e.pool.balance, 1_000_000);
    assert_eq!(e.pool.total_locked_usdc, 0);
    // The boundary itself is accepted: 10% exactly.
    let ok = e.place_bet(7, 1, 0, 1_000_000, 1000, 10000, 12000, Some(100));
    assert_eq!(ok, Ok(0));
}

#[test]
fn placement_rejects_cap_not_above_strike() {
    let mut e = BettingEngine::new(1_000_000);
    let r = e.place_bet(7, 1, 0, 1_000_000, 500, 12000, 12000, Some(100));
    assert_eq!(r, Err(BettingError::InvalidStrikeCap));
    let r2 = e.place_bet(7, 1, 0, 1_000_000, 500, 12000, 11000, Some(100));
    assert_eq!(r2, Err(BettingError::InvalidStrikeCap));
    assert_eq!(e.bets.len(), 0);
}

#[test]
fn placement_rejects_premium_overflow() {
    let mut e = BettingEngine::new(1_000_000);
    let r = e.place_bet(7, 1, 0, u64::MAX, 2, 10000, 12000, Some(100));
    assert_eq!(r, Err(BettingError::CalculationError));
    assert_eq!(e.bets.len(), 0);
    assert_eq!(e.pool.balance, 1_000_000);
}

#[test]
fn placement_rejects_unbacked_reservation() {
    let mut e = BettingEngine::new(100_000);
    // The reservation would be 200_000 against 100_000 available.
    let r = e.place_bet(7, 1, 0, 1_000_000, 500, 10000, 12000, Some(100));
    assert_eq!(r, Err(BettingError::InsufficientContractBalance));
    assert_eq!(e.bets.len(), 0);
    assert_eq!(e.pool.balance, 100_000);
    assert_eq!(e.pool.total_locked_usdc, 0);
}

#[test]
fn placement_without_price_fails() {
    let mut e = BettingEngine::new(1_000_000);
    let r = e.place_bet(7, 1, 0, 1_000_000, 500, 10000, 12000, None);
    assert_eq!(r, Err(BettingError::PythError));
    assert_eq!(e.bets.len(), 0);
    assert_eq!(e.pool.balance, 1_000_000);
}

#[test]
fn claim_pays_at_most_the_cap() {
    let mut e = engine_with_standard_bet();
    // Far above the cap price of 120 the payout no longer grows: it is
    // the full reservation, and nothing returns to availability.
    let c = e.claim_bet(0, 86401, Some(500));
    assert_eq!(c, Ok(200_000));
    assert_eq!(e.pool.balance, 850_000);
    assert_eq!(e.pool.total_locked_usdc, 0);
}

#[test]
fn claim_clamps_payout_to_reservation() {
    let mut e = BettingEngine::new(10_000);
    // Floor effects make the cap-to-strike price gap worth more than the
    // reservation: strike and cap prices land at 2 and 3, one price step
    // apart, while the reservation is floor(10000 * 2 / 10000) = 2.
    let r = e.place_bet(9, 1, 0, 10_000, 100, 14999, 15001, Some(2));
    assert_eq!(r, Ok(0));
    assert_eq!(e.bets[0].strike_price, 2);
    assert_eq!(e.bets[0].reserved_payout, 2);
    let c = e.claim_bet(0, 86401, Some(3));
    // Unclamped the payout would be 10000 * (3 - 2) / 2 = 5000.
    assert_eq!(c, Ok(2));
    assert_eq!(e.pool.total_locked_usdc, 0);
}

#[test]
fn claim_with_zero_start_price_fails() {
    let mut e = BettingEngine::new(1_000_000);
    let r = e.place_bet(7, 1, 0, 1_000_000, 500, 10000, 12000, Some(0));
    assert_eq!(r, Ok(0));
    assert_eq!(e.bets[0].strike_price, 0);
    // Any price wins against a zero strike, but the payout scaling
    // divides by the zero start price.
    let c = e.claim_bet(0, 86401, Some(5));
    assert_eq!(c, Err(BettingError::CalculationError));
    assert_eq!(e.bets[0].status, BetStatus::Open);
    assert_eq!(e.pool.total_locked_usdc, 200_000);
}

#[test]
fn locked_total_tracks_open_reservations() {
    let mut e = BettingEngine::new(1_000_000);
    assert_eq!(e.place_bet(7, 1, 0, 1_000_000, 500, 10000, 12000, Some(100)), Ok(0));
    assert_eq!(e.place_bet(8, 1, 0, 500_000, 300, 10000, 11000, Some(200)), Ok(1));
    // 200_000 + floor(500_000 * 1000 / 10000) = 200_000 + 50_000.
    assert_eq!(e.pool.total_locked_usdc, 250_000);
    assert!(e.pool.total_locked_usdc <= e.pool.balance);
    assert_eq!(e.claim_bet(0, 86401, Some(90)), Ok(0));
    // Only the second bet's reservation stays locked.
    assert_eq!(e.pool.total_locked_usdc, 50_000);
    assert!(e.pool.total_locked_usdc <= e.pool.balance);
    assert_eq!(e.unlock_expired_bet(1, 172801), Ok(50_000));
    assert_eq!(e.pool.total_locked_usdc, 0);
}
