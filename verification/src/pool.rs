use vstd::prelude::*;

use crate::errors::BettingError;

verus! {

/// The shared collateral pool.
///
/// `balance` is the pool's view of the funds the ledger holds for it;
/// `total_locked_usdc` is the running sum of collateral reserved against
/// open bets. The difference is what new reservations may draw on.
#[derive(Clone, Copy, Debug)]
pub struct ContractState {
    /// Funds held by the pool.
    pub balance: u64,
    /// Collateral reserved against open bets.
    pub total_locked_usdc: u64,
}

impl ContractState {
    /// Solvency: reserved collateral never exceeds the pool's funds.
    pub open spec fn wf(self) -> bool {
        self.total_locked_usdc <= self.balance
    }

    /// Funds not reserved against any open bet.
    pub open spec fn available(self) -> int {
        self.balance - self.total_locked_usdc
    }

    /// A fresh pool holding `balance` with nothing reserved.
    pub fn new(balance: u64) -> (p: ContractState)
        ensures
            p.balance == balance,
            p.total_locked_usdc == 0,
            p.wf(),
    {
        ContractState { balance, total_locked_usdc: 0 }
    }

    /// Reserve `amount` of the pool's funds; succeeds exactly when that
    /// much is available.
    pub fn lock(&mut self, amount: u64) -> (r: Result<(), BettingError>)
        requires
            old(self).wf(),
        ensures
            final(self).wf(),
            old(self).available() >= amount ==> r is Ok && final(self).total_locked_usdc
                == old(self).total_locked_usdc + amount && final(self).balance == old(
                self,
            ).balance,
            old(self).available() < amount ==> r == Err::<(), BettingError>(
                BettingError::InsufficientContractBalance,
            ) && *final(self) == *old(self),
    {
        let available = self.balance - self.total_locked_usdc;
        if available >= amount {
            self.total_locked_usdc = self.total_locked_usdc + amount;
            Ok(())
        } else {
            Err(BettingError::InsufficientContractBalance)
        }
    }

    /// Return `amount` of reserved collateral to availability; fails
    /// exactly when more than the reserved total would be released.
    pub fn release(&mut self, amount: u64) -> (r: Result<(), BettingError>)
        ensures
            amount <= old(self).total_locked_usdc ==> r is Ok && final(self).total_locked_usdc
                == old(self).total_locked_usdc - amount && final(self).balance == old(
                self,
            ).balance,
            amount > old(self).total_locked_usdc ==> r == Err::<(), BettingError>(
                BettingError::CalculationError,
            ) && *final(self) == *old(self),
            old(self).wf() ==> final(self).wf(),
    {
        if amount <= self.total_locked_usdc {
            self.total_locked_usdc = self.total_locked_usdc - amount;
            Ok(())
        } else {
            Err(BettingError::CalculationError)
        }
    }

    /// Credit incoming funds (a premium) to the pool's balance; fails
    /// exactly when the balance would overflow.
    pub fn deposit(&mut self, amount: u64) -> (r: Result<(), BettingError>)
        ensures
            old(self).balance + amount <= u64::MAX ==> r is Ok && final(self).balance == old(
                self,
            ).balance + amount && final(self).total_locked_usdc == old(self).total_locked_usdc,
            old(self).balance + amount > u64::MAX ==> r == Err::<(), BettingError>(
                BettingError::CalculationError,
            ) && *final(self) == *old(self),
            old(self).wf() ==> final(self).wf(),
    {
        match self.balance.checked_add(amount) {
            Some(b) => {
                self.balance = b;
                Ok(())
            },
            None => Err(BettingError::CalculationError),
        }
    }

    /// Pay `amount` out of the pool's unreserved funds; succeeds exactly
    /// when that much is available, so solvency is preserved.
    pub fn withdraw(&mut self, amount: u64) -> (r: Result<(), BettingError>)
        requires
            old(self).wf(),
        ensures
            final(self).wf(),
            amount <= old(self).available() ==> r is Ok && final(self).balance == old(
                self,
            ).balance - amount && final(self).total_locked_usdc == old(self).total_locked_usdc,
            amount > old(self).available() ==> r == Err::<(), BettingError>(
                BettingError::InsufficientContractBalance,
            ) && *final(self) == *old(self),
    {
        let available = self.balance - self.total_locked_usdc;
        if amount <= available {
            self.balance = self.balance - amount;
            Ok(())
        } else {
            Err(BettingError::InsufficientContractBalance)
        }
    }
}

} // verus!
