use vstd::prelude::*;
use crate::amount::representable;
use crate::error::EngineError;
use crate::models::{AccountState, InputRecord, TransactionType, TxState};

verus! {

/// The abstract state of the engine: one account per known client and one
/// record per accepted deposit, keyed by its transaction ID.
pub struct Ledger {
    pub accounts: Map<u16, AccountState>,
    pub txs: Map<u32, TxState>,
}

/// What an event leaves behind: the next ledger, and whether it was accepted.
pub type Outcome = (Ledger, Result<(), EngineError>);

/// The ledger with no clients and no recorded deposits.
pub open spec fn empty_ledger() -> Ledger {
    Ledger { accounts: Map::empty(), txs: Map::empty() }
}

/// The event is rejected with `e` and the ledger stays as it is.
pub open spec fn reject(l: Ledger, e: EngineError) -> Outcome {
    (l, Err(e))
}

/// The event is accepted and the ledger stays as it is.
pub open spec fn no_op(l: Ledger) -> Outcome {
    (l, Ok(()))
}

/// The event is accepted; `client` now has account `a`.
pub open spec fn set_account(l: Ledger, client: u16, a: AccountState) -> Ledger {
    Ledger { accounts: l.accounts.insert(client, a), txs: l.txs }
}

/// A deposit: checks in the order missing amount, non-positive amount,
/// duplicate ID, locked account; an absent account is opened.
pub open spec fn deposit_step(l: Ledger, r: InputRecord) -> Outcome {
    match r.amount {
        None => reject(l, EngineError::MissingAmount(r.tx_id)),
        Some(amount) => {
            if amount@ <= 0 {
                reject(l, EngineError::AmountNotPositive(r.tx_id))
            } else if l.txs.contains_key(r.tx_id) {
                reject(l, EngineError::DuplicateTransactionId(r.tx_id))
            } else if l.accounts.contains_key(r.client_id) && l.accounts[r.client_id].locked {
                reject(l, EngineError::AccountLocked(r.client_id))
            } else {
                let a = if l.accounts.contains_key(r.client_id) {
                    l.accounts[r.client_id]
                } else {
                    AccountState { available: 0, held: 0, locked: false }
                };
                (
                    Ledger {
                        accounts: l.accounts.insert(
                            r.client_id,
                            AccountState { available: a.available + amount@, ..a },
                        ),
                        txs: l.txs.insert(r.tx_id, TxState { amount: amount@, disputed: false }),
                    },
                    Ok(()),
                )
            }
        },
    }
}

/// A withdrawal: a client without an account makes it a no-op.
pub open spec fn withdrawal_step(l: Ledger, r: InputRecord) -> Outcome {
    match r.amount {
        None => reject(l, EngineError::MissingAmount(r.tx_id)),
        Some(amount) => {
            if amount@ <= 0 {
                reject(l, EngineError::AmountNotPositive(r.tx_id))
            } else if !l.accounts.contains_key(r.client_id) {
                no_op(l)
            } else if l.accounts[r.client_id].locked {
                reject(l, EngineError::AccountLocked(r.client_id))
            } else if l.accounts[r.client_id].available < amount@ {
                reject(l, EngineError::InsufficientFunds(r.client_id, amount))
            } else {
                let a = l.accounts[r.client_id];
                (
                    set_account(
                        l,
                        r.client_id,
                        AccountState { available: a.available - amount@, ..a },
                    ),
                    Ok(()),
                )
            }
        },
    }
}

/// A dispute: holds the recorded amount; a second dispute is a no-op.
pub open spec fn dispute_step(l: Ledger, r: InputRecord) -> Outcome {
    if !l.txs.contains_key(r.tx_id) {
        reject(l, EngineError::TransactionNotFound(r.tx_id))
    } else if l.txs[r.tx_id].disputed {
        no_op(l)
    } else if !l.accounts.contains_key(r.client_id) {
        reject(l, EngineError::TransactionNotFound(r.tx_id))
    } else if l.accounts[r.client_id].locked {
        reject(l, EngineError::AccountLocked(r.client_id))
    } else {
        let a = l.accounts[r.client_id];
        let t = l.txs[r.tx_id];
        (
            Ledger {
                accounts: l.accounts.insert(
                    r.client_id,
                    AccountState {
                        available: a.available - t.amount,
                        held: a.held + t.amount,
                        ..a
                    },
                ),
                txs: l.txs.insert(r.tx_id, TxState { disputed: true, ..t }),
            },
            Ok(()),
        )
    }
}

/// A resolve: releases the recorded amount of a disputed deposit.
pub open spec fn resolve_step(l: Ledger, r: InputRecord) -> Outcome {
    if !l.txs.contains_key(r.tx_id) {
        reject(l, EngineError::TransactionNotFound(r.tx_id))
    } else if !l.txs[r.tx_id].disputed {
        reject(l, EngineError::TransactionNotDisputed(r.tx_id))
    } else if !l.accounts.contains_key(r.client_id) {
        reject(l, EngineError::TransactionNotFound(r.tx_id))
    } else if l.accounts[r.client_id].locked {
        reject(l, EngineError::AccountLocked(r.client_id))
    } else {
        let a = l.accounts[r.client_id];
        let t = l.txs[r.tx_id];
        (
            Ledger {
                accounts: l.accounts.insert(
                    r.client_id,
                    AccountState {
                        available: a.available + t.amount,
                        held: a.held - t.amount,
                        ..a
                    },
                ),
                txs: l.txs.insert(r.tx_id, TxState { disputed: false, ..t }),
            },
            Ok(()),
        )
    }
}

/// A chargeback: removes the held amount of a disputed deposit and locks the
/// account, locked or not; the deposit stays disputed.
pub open spec fn chargeback_step(l: Ledger, r: InputRecord) -> Outcome {
    if !l.txs.contains_key(r.tx_id) {
        reject(l, EngineError::TransactionNotFound(r.tx_id))
    } else if !l.txs[r.tx_id].disputed {
        reject(l, EngineError::TransactionNotDisputed(r.tx_id))
    } else if !l.accounts.contains_key(r.client_id) {
        reject(l, EngineError::TransactionNotFound(r.tx_id))
    } else {
        let a = l.accounts[r.client_id];
        let t = l.txs[r.tx_id];
        (
            set_account(
                l,
                r.client_id,
                AccountState { held: a.held - t.amount, locked: true, ..a },
            ),
            Ok(()),
        )
    }
}

/// The effect of one event on the ledger.
pub open spec fn step(l: Ledger, r: InputRecord) -> Outcome {
    match r.transaction_type {
        TransactionType::Deposit => deposit_step(l, r),
        TransactionType::Withdrawal => withdrawal_step(l, r),
        TransactionType::Dispute => dispute_step(l, r),
        TransactionType::Resolve => resolve_step(l, r),
        TransactionType::Chargeback => chargeback_step(l, r),
    }
}

/// The ledger after the events of `events`, applied in order.
pub open spec fn replay(l: Ledger, events: Seq<InputRecord>) -> Ledger
    decreases events.len(),
{
    if events.len() == 0 {
        l
    } else {
        replay(step(l, events[0]).0, events.drop_first())
    }
}

/// Every balance of the ledger, and every account's total, fits an `Amount`.
pub open spec fn bounded(l: Ledger) -> bool {
    forall|c: u16|
        #[trigger] l.accounts.contains_key(c) ==> {
            &&& representable(l.accounts[c].available)
            &&& representable(l.accounts[c].held)
            &&& representable(l.accounts[c].total())
        }
}

/// The funds of `client`, available or held; zero for a client without account.
pub open spec fn funds(l: Ledger, client: u16) -> int {
    if l.accounts.contains_key(client) {
        l.accounts[client].total()
    } else {
        0
    }
}

} // verus!
