use vstd::prelude::*;
use crate::amount::Amount;

verus! {

/// Why the engine rejected an event. None of these stops a run: the caller
/// reports the error and goes on with the next event.
#[derive(Clone, Copy, Debug, PartialEq, Eq, Structural)]
pub enum EngineError {
    /// A mutation was attempted on a locked account.
    AccountLocked(u16),
    /// The event names an unknown transaction, or a client without an account.
    TransactionNotFound(u32),
    /// A resolve or chargeback names a transaction that is not under dispute.
    TransactionNotDisputed(u32),
    /// A withdrawal asks for more than the available funds of the client.
    InsufficientFunds(u16, Amount),
    /// A deposit reuses a transaction ID that is already recorded.
    DuplicateTransactionId(u32),
    /// A deposit or withdrawal carries an amount that is zero or negative.
    AmountNotPositive(u32),
    /// A deposit or withdrawal carries no amount.
    MissingAmount(u32),
}

} // verus!
