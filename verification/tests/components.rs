use betting_engine::engine::BettingEngine;
use betting_engine::errors::BettingError;
use betting_engine::pool::ContractState;

#[test]
fn pool_lock_requires_availability() {
    let mut p = ContractState::new(100);
    assert_eq!(p.lock(60), Ok(()));
    assert_eq!(p.total_locked_usdc, 60);
    assert_eq!(p.lock(41), Err(BettingError::InsufficientContractBalance));
    assert_eq!(p.total_locked_usdc, 60);
    assert_eq!(p.lock(40), Ok(()));
    assert_eq!(p.total_locked_usdc, 100);
}

#[test]
fn pool_release_never_underflows() {
    let mut p = ContractState::new(100);
    assert_eq!(p.lock(60), Ok(()));
    assert_eq!(p.release(61), Err(BettingError::CalculationError));
    assert_eq!(p.total_locked_usdc, 60);
    assert_eq!(p.release(60), Ok(()));
    assert_eq!(p.total_locked_usdc, 0);
}

#[test]
fn pool_deposit_checks_overflow() {
    let mut p = ContractState::new(u64::MAX - 1);
    assert_eq!(p.deposit(2), Err(BettingError::CalculationError));
    assert_eq!(p.balance, u64::MAX - 1);
    assert_eq!(p.deposit(1), Ok(()));
    assert_eq!(p.balance, u64::MAX);
}

#[test]
fn pool_withdraw_spares_locked_funds() {
    let mut p = ContractState::new(100);
    assert_eq!(p.lock(60), Ok(()));
    assert_eq!(p.withdraw(41), Err(BettingError::InsufficientContractBalance));
    assert_eq!(p.balance, 100);
    assert_eq!(p.withdraw(40), Ok(()));
    assert_eq!(p.balance, 60);
    assert_eq!(p.total_locked_usdc, 60);
}

#[test]
fn registry_groups_bets_by_owner() {
    let mut e = BettingEngine::new(10_000_000);
    assert_eq!(e.place_bet(7, 1, 0, 1_000_000, 500, 10000, 12000, Some(100)), Ok(0));
    assert_eq!(e.place_bet(9, 1, 0, 1_000_000, 500, 10000, 12000, Some(100)), Ok(1));
    assert_eq!(e.place_bet(7, 2, 0, 1_000_000, 500, 10000, 12000, Some(100)), Ok(2));
    assert_eq!(e.user_bets.len(), 2);
    assert_eq!(e.user_bets[0].user, 7);
    assert_eq!(e.user_bets[0].bet_ids, vec![0, 2]);
    assert_eq!(e.user_bets[1].user, 9);
    assert_eq!(e.user_bets[1].bet_ids, vec![1]);
}

#[test]
fn strike_price_is_scaled_from_start_price() {
    let mut e = BettingEngine::new(10_000_000);
    // floor(250 * 12000 / 10000) = 300.
    assert_eq!(e.place_bet(7, 1, 0, 1_000_000, 500, 12000, 15000, Some(250)), Ok(0));
    assert_eq!(e.bets[0].strike_price, 300);
    // floor(99 * 10050 / 10000) = 99: rounding is downward.
    assert_eq!(e.place_bet(7, 1, 0, 1_000_000, 500, 10050, 15000, Some(99)), Ok(1));
    assert_eq!(e.bets[1].strike_price, 99);
}

#[test]
fn placement_timestamp_overflow_fails() {
    let mut e = BettingEngine::new(1_000_000);
    let r = e.place_bet(7, 1, i64::MAX - 100_000, 1_000_000, 500, 10000, 12000, Some(100));
    assert_eq!(r, Err(BettingError::CalculationError));
    assert_eq!(e.bets.len(), 0);
    assert_eq!(e.pool.balance, 1_000_000);
}
