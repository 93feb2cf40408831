use vstd::prelude::*;
use crate::amount::{Amount, representable};
use crate::error::EngineError;

verus! {

/// The kind of an event.
#[derive(Clone, Copy, Debug, PartialEq, Eq, Structural)]
pub enum TransactionType {
    Deposit,
    Withdrawal,
    Dispute,
    Resolve,
    Chargeback,
}

/// One event of the input stream.
#[derive(Clone, Copy, Debug, PartialEq, Eq, Structural)]
pub struct InputRecord {
    pub transaction_type: TransactionType,
    pub client_id: u16,
    pub tx_id: u32,
    /// Present for deposits and withdrawals, absent for the dispute steps.
    pub amount: Option<Amount>,
}

/// The abstract state of an account.
pub struct AccountState {
    pub available: int,
    pub held: int,
    pub locked: bool,
}

impl AccountState {
    /// Funds of the account, available or held.
    pub open spec fn total(self) -> int {
        self.available + self.held
    }
}

/// The balances of one client.
#[derive(Clone, Copy, Debug, PartialEq, Eq, Structural)]
pub struct Account {
    pub available: Amount,
    pub held: Amount,
    pub locked: bool,
}

impl View for Account {
    type V = AccountState;

    open spec fn view(&self) -> AccountState {
        AccountState { available: self.available@, held: self.held@, locked: self.locked }
    }
}

impl Account {
    /// A fresh account: no funds, not locked.
    pub fn new() -> (r: Account)
        ensures
            r@ == (AccountState { available: 0, held: 0, locked: false }),
    {
        Account { available: Amount::zero(), held: Amount::zero(), locked: false }
    }

    /// Funds usable for withdrawal.
    pub fn available(&self) -> (r: Amount)
        ensures
            r@ == self@.available,
    {
        self.available
    }

    /// Funds frozen by disputes.
    pub fn held(&self) -> (r: Amount)
        ensures
            r@ == self@.held,
    {
        self.held
    }

    /// Whether a chargeback has locked the account.
    pub fn locked(&self) -> (r: bool)
        ensures
            r == self@.locked,
    {
        self.locked
    }

    /// Adds `amount` to the available funds.
    pub fn deposit(&mut self, amount: Amount)
        requires
            representable(old(self)@.available + amount@),
        ensures
            final(self)@ == (AccountState {
                available: old(self)@.available + amount@,
                ..old(self)@
            }),
    {
        self.available = Amount { units: self.available.units + amount.units };
    }

    /// Takes `amount` from the available funds, unless they are short of it.
    /// The client ID of the error is left zero for the caller to fill in.
    pub fn withdraw(&mut self, amount: Amount) -> (r: Result<(), EngineError>)
        requires
            old(self)@.available >= amount@ ==> representable(old(self)@.available - amount@),
        ensures
            old(self)@.available < amount@ ==> r == Err::<(), EngineError>(
                EngineError::InsufficientFunds(0, amount),
            ) && final(self)@ == old(self)@,
            old(self)@.available >= amount@ ==> r == Ok::<(), EngineError>(()) && final(self)@
                == (AccountState { available: old(self)@.available - amount@, ..old(self)@ }),
    {
        if self.available.units < amount.units {
            return Err(EngineError::InsufficientFunds(0, amount));
        }
        self.available = Amount { units: self.available.units - amount.units };
        Ok(())
    }

    /// Moves `amount` from the available funds to the held funds.
    pub fn hold_for_dispute(&mut self, amount: Amount)
        requires
            representable(old(self)@.available - amount@),
            representable(old(self)@.held + amount@),
        ensures
            final(self)@ == (AccountState {
                available: old(self)@.available - amount@,
                held: old(self)@.held + amount@,
                ..old(self)@
            }),
    {
        self.available = Amount { units: self.available.units - amount.units };
        self.held = Amount { units: self.held.units + amount.units };
    }

    /// Moves `amount` from the held funds back to the available funds.
    pub fn release_from_dispute(&mut self, amount: Amount)
        requires
            representable(old(self)@.held - amount@),
            representable(old(self)@.available + amount@),
        ensures
            final(self)@ == (AccountState {
                available: old(self)@.available + amount@,
                held: old(self)@.held - amount@,
                ..old(self)@
            }),
    {
        self.held = Amount { units: self.held.units - amount.units };
        self.available = Amount { units: self.available.units + amount.units };
    }

    /// Removes `amount` from the held funds for good and locks the account.
    pub fn chargeback(&mut self, amount: Amount)
        requires
            representable(old(self)@.held - amount@),
        ensures
            final(self)@ == (AccountState {
                held: old(self)@.held - amount@,
                locked: true,
                ..old(self)@
            }),
    {
        self.held = Amount { units: self.held.units - amount.units };
        self.locked = true;
    }

    /// Funds of the account, available or held.
    pub fn total(&self) -> (r: Amount)
        requires
            representable(self@.total()),
        ensures
            r@ == self@.total(),
    {
        Amount { units: self.available.units + self.held.units }
    }
}

/// Where a deposit stands in the dispute lifecycle.
#[derive(Clone, Copy, Debug, PartialEq, Eq, Structural)]
pub enum TransactionStatus {
    Normal,
    Disputed,
}

/// The abstract state of a recorded deposit.
pub struct TxState {
    pub amount: int,
    pub disputed: bool,
}

/// A recorded deposit, kept so that it can be disputed.
#[derive(Clone, Copy, Debug, PartialEq, Eq, Structural)]
pub struct TransactionRecord {
    pub amount: Amount,
    pub status: TransactionStatus,
}

impl View for TransactionRecord {
    type V = TxState;

    open spec fn view(&self) -> TxState {
        TxState { amount: self.amount@, disputed: self.status == TransactionStatus::Disputed }
    }
}

/// The final state of one client, as handed out for output.
#[derive(Clone, Copy, Debug, PartialEq, Eq, Structural)]
pub struct OutputRecord {
    pub client_id: u16,
    pub available: Amount,
    pub held: Amount,
    pub total: Amount,
    pub locked: bool,
}

} // verus!
