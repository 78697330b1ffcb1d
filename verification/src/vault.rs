use vstd::prelude::*;

use crate::errors::BettingError;

verus! {

/// Escrow vault: custodial holder of all funds wagered on one race.
///
/// The balance changes only through `deposit` and `withdraw`, which reject
/// overflow and underflow, so the balance can never wrap and can never be
/// driven below zero.
#[derive(Clone, Debug)]
pub struct Vault {
    balance: u64,
}

impl View for Vault {
    type V = u64;

    closed spec fn view(&self) -> u64 {
        self.balance
    }
}

impl Vault {
    /// A fresh, empty vault, created together with the race it serves.
    pub fn new() -> (v: Vault)
        ensures
            v@ == 0,
    {
        Vault { balance: 0 }
    }

    /// The funds currently held in custody.
    pub fn balance(&self) -> (b: u64)
        ensures
            b == self@,
    {
        self.balance
    }

    /// Accepts a deposit; rejects an addition that would overflow.
    pub fn deposit(&mut self, amount: u64) -> (result: Result<(), BettingError>)
        ensures
            result is Ok <==> old(self)@ + amount <= u64::MAX,
            result is Ok ==> final(self)@ == old(self)@ + amount,
            result is Err ==> *final(self) == *old(self)
                && result == Err::<(), BettingError>(BettingError::Overflow),
    {
        if self.balance > u64::MAX - amount {
            Err(BettingError::Overflow)
        } else {
            self.balance = self.balance + amount;
            Ok(())
        }
    }

    /// Releases funds; rejects a withdrawal beyond the current balance.
    pub fn withdraw(&mut self, amount: u64) -> (result: Result<(), BettingError>)
        ensures
            result is Ok <==> amount <= old(self)@,
            result is Ok ==> final(self)@ == old(self)@ - amount,
            result is Err ==> *final(self) == *old(self)
                && result == Err::<(), BettingError>(BettingError::InsufficientVaultFunds),
    {
        if amount > self.balance {
            Err(BettingError::InsufficientVaultFunds)
        } else {
            self.balance = self.balance - amount;
            Ok(())
        }
    }
}

} // verus!
