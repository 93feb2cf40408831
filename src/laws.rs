use vstd::prelude::*;
use crate::error::EngineError;
use crate::ledger::{funds, replay, step, Ledger};
use crate::models::{InputRecord, TransactionType};

verus! {

/// The funds that `r`, applied to `l`, brings to the account of `client`
/// (negative when it takes funds away): the amount of an accepted deposit,
/// minus the amount of a withdrawal that took funds, minus the amount a
/// chargeback removed; zero for every other event.
pub open spec fn flow(l: Ledger, r: InputRecord, client: u16) -> int {
    if r.client_id != client || step(l, r).1.is_err() {
        0
    } else {
        match (r.transaction_type, r.amount) {
            (TransactionType::Deposit, Some(a)) => a@,
            (TransactionType::Withdrawal, Some(a)) => if l.accounts.contains_key(client) {
                -a@
            } else {
                0
            },
            (TransactionType::Chargeback, _) => -l.txs[r.tx_id].amount,
            _ => 0,
        }
    }
}

/// The sum of `flow` over `events`, each taken on the ledger that the events
/// before it left.
pub open spec fn net_flow(l: Ledger, events: Seq<InputRecord>, client: u16) -> int
    decreases events.len(),
{
    if events.len() == 0 {
        0
    } else {
        flow(l, events[0], client) + net_flow(step(l, events[0]).0, events.drop_first(), client)
    }
}

/// One event changes the funds of a client by its flow: disputes and
/// resolves only move funds between available and held.
pub proof fn lemma_step_conserves(l: Ledger, r: InputRecord, client: u16)
    ensures
        funds(step(l, r).0, client) == funds(l, client) + flow(l, r, client),
{
}

/// Conservation: after any sequence of events, the funds of a client equal
/// its funds before, plus its accepted deposits, minus its withdrawals that
/// took funds, minus what its chargebacks removed.
pub proof fn lemma_conservation(l: Ledger, events: Seq<InputRecord>, client: u16)
    ensures
        funds(replay(l, events), client) == funds(l, client) + net_flow(l, events, client),
    decreases events.len(),
{
    if events.len() > 0 {
        lemma_step_conserves(l, events[0], client);
        lemma_conservation(step(l, events[0]).0, events.drop_first(), client);
    }
}

/// Disputing a transaction twice has the same effect, and the same result,
/// as disputing it once.
pub proof fn lemma_dispute_idempotent(l: Ledger, r: InputRecord)
    requires
        r.transaction_type == TransactionType::Dispute,
    ensures
        step(step(l, r).0, r) == step(l, r),
{
}

/// A second deposit with the ID of an accepted one is rejected as a
/// duplicate, whatever its client, and leaves the ledger as the first left it.
pub proof fn lemma_duplicate_rejected(l: Ledger, first: InputRecord, second: InputRecord)
    requires
        first.transaction_type == TransactionType::Deposit,
        second.transaction_type == TransactionType::Deposit,
        first.tx_id == second.tx_id,
        step(l, first).1.is_ok(),
        second.amount.is_some() && second.amount.unwrap()@ > 0,
    ensures
        step(step(l, first).0, second) == (
        step(l, first).0,
        Err::<(), EngineError>(EngineError::DuplicateTransactionId(second.tx_id)),
        ),
{
}

/// Lock finality: a locked account stays locked; no event of its client but
/// a chargeback changes the ledger; deposits, withdrawals, disputes and
/// resolves that pass the checks before the lock check are rejected with
/// `AccountLocked`, while a chargeback of a disputed deposit is accepted.
pub proof fn lemma_lock_final(l: Ledger, r: InputRecord)
    requires
        l.accounts.contains_key(r.client_id),
        l.accounts[r.client_id].locked,
    ensures
        forall|c: u16|
            #[trigger] l.accounts.contains_key(c) && l.accounts[c].locked ==> step(
                l,
                r,
            ).0.accounts.contains_key(c) && step(l, r).0.accounts[c].locked,
        r.transaction_type != TransactionType::Chargeback ==> step(l, r).0 == l,
        ({
            let locked = Err::<(), EngineError>(EngineError::AccountLocked(r.client_id));
            let positive = r.amount.is_some() && r.amount.unwrap()@ > 0;
            let recorded = l.txs.contains_key(r.tx_id);
            let disputed = recorded && l.txs[r.tx_id].disputed;
            &&& r.transaction_type == TransactionType::Deposit && positive && !recorded
                ==> step(l, r).1 == locked
            &&& r.transaction_type == TransactionType::Withdrawal && positive ==> step(l, r).1
                == locked
            &&& r.transaction_type == TransactionType::Dispute && recorded && !disputed
                ==> step(l, r).1 == locked
            &&& r.transaction_type == TransactionType::Resolve && disputed ==> step(l, r).1
                == locked
            &&& r.transaction_type == TransactionType::Chargeback && disputed ==> step(l, r).1
                is Ok
        }),
{
}

/// A locked account stays locked, whatever events follow.
pub proof fn lemma_lock_persists(l: Ledger, events: Seq<InputRecord>, client: u16)
    requires
        l.accounts.contains_key(client),
        l.accounts[client].locked,
    ensures
        replay(l, events).accounts.contains_key(client),
        replay(l, events).accounts[client].locked,
    decreases events.len(),
{
    if events.len() > 0 {
        let r = events[0];
        if l.accounts.contains_key(r.client_id) && l.accounts[r.client_id].locked {
            lemma_lock_final(l, r);
        }
        assert(step(l, r).0.accounts.contains_key(client) && step(l, r).0.accounts[client].locked);
        lemma_lock_persists(step(l, r).0, events.drop_first(), client);
    }
}

} // verus!
