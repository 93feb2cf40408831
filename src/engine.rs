use vstd::prelude::*;
use std::collections::HashMap;
use crate::amount::{representable, Amount};
use crate::error::EngineError;
use crate::ledger::{
    bounded, chargeback_step, deposit_step, dispute_step, empty_ledger, resolve_step, step,
    withdrawal_step, Ledger,
};
use crate::models::{
    Account, AccountState, InputRecord, OutputRecord, TransactionRecord, TransactionStatus,
    TransactionType,
};

verus! {

broadcast use vstd::std_specs::hash::group_hash_axioms;

/// Replays events against client accounts: one account per client, one
/// record per accepted deposit.
pub struct PaymentEngine {
    /// Account of each client, keyed by client ID.
    accounts: HashMap<u16, Account>,
    /// Accepted deposits, keyed by transaction ID.
    transactions: HashMap<u32, TransactionRecord>,
    /// The client IDs of `accounts`, in the order the accounts were opened.
    clients: Vec<u16>,
}

proof fn lemma_count_clients(e: &PaymentEngine)
    requires
        e.wf(),
    ensures
        e.clients@.len() == e@.accounts.dom().len(),
{
    e.clients@.unique_seq_to_set();
    assert(e.clients@.to_set() =~= e@.accounts.dom());
}

/// `x + sign * amount`, when it fits an `i128`.
fn shift(x: i128, amount: i128, sign: i8) -> (r: Option<i128>)
    requires
        -1 <= sign <= 1,
    ensures
        r == (if representable(x + sign * amount) {
            Some((x + sign * amount) as i128)
        } else {
            None::<i128>
        }),
{
    if sign == 1 {
        assert(sign * amount == amount) by (nonlinear_arith)
            requires
                sign == 1,
        ;
        x.checked_add(amount)
    } else if sign == -1 {
        assert(sign * amount == -amount) by (nonlinear_arith)
            requires
                sign == -1,
        ;
        x.checked_sub(amount)
    } else {
        assert(sign * amount == 0) by (nonlinear_arith)
            requires
                sign == 0,
        ;
        Some(x)
    }
}

/// Whether `a`, with `to_available * amount` added to its available funds and
/// `to_held * amount` to its held funds, has balances and a total that fit.
fn shift_fits(a: &Account, amount: Amount, to_available: i8, to_held: i8) -> (r: bool)
    requires
        -1 <= to_available <= 1,
        -1 <= to_held <= 1,
    ensures
        r == ({
            let available = a@.available + to_available * amount@;
            let held = a@.held + to_held * amount@;
            representable(available) && representable(held) && representable(available + held)
        }),
{
    match (shift(a.available.units, amount.units, to_available), shift(a.held.units, amount.units, to_held)) {
        (Some(available), Some(held)) => available.checked_add(held).is_some(),
        _ => false,
    }
}

/// `o` is the output line of client `client`, whose account is `a`.
pub open spec fn describes(o: OutputRecord, client: u16, a: AccountState) -> bool {
    &&& o.client_id == client
    &&& o.available@ == a.available
    &&& o.held@ == a.held
    &&& o.total@ == a.total()
    &&& o.locked == a.locked
}

impl View for PaymentEngine {
    type V = Ledger;

    closed spec fn view(&self) -> Ledger {
        Ledger {
            accounts: self.accounts@.map_values(|a: Account| a@),
            txs: self.transactions@.map_values(|t: TransactionRecord| t@),
        }
    }
}

impl PaymentEngine {
    /// The engine's internal consistency: the client list names each account
    /// once, and every balance fits an `Amount`.
    pub closed spec fn wf(&self) -> bool {
        &&& self.clients@.no_duplicates()
        &&& forall|c: u16| self.accounts@.contains_key(c) <==> #[trigger] self.clients@.contains(c)
        &&& bounded(self@)
    }

    /// An engine with no accounts and no recorded deposits.
    pub fn new() -> (r: PaymentEngine)
        ensures
            r.wf(),
            r@ == empty_ledger(),
    {
        let r = PaymentEngine {
            accounts: HashMap::new(),
            transactions: HashMap::new(),
            clients: Vec::new(),
        };
        assert(r@.accounts =~= empty_ledger().accounts);
        assert(r@.txs =~= empty_ledger().txs);
        r
    }

    /// The account of `client_id`, if the client has one.
    pub fn account(&self, client_id: u16) -> (r: Option<Account>)
        ensures
            match r {
                Some(a) => self@.accounts.contains_key(client_id) && a@ == self@.accounts[client_id],
                None => !self@.accounts.contains_key(client_id),
            },
    {
        match self.accounts.get(&client_id) {
            Some(a) => Some(*a),
            None => None,
        }
    }

    /// The recorded deposit `tx_id`, if there is one.
    pub fn transaction(&self, tx_id: u32) -> (r: Option<TransactionRecord>)
        ensures
            match r {
                Some(t) => self@.txs.contains_key(tx_id) && t@ == self@.txs[tx_id],
                None => !self@.txs.contains_key(tx_id),
            },
    {
        match self.transactions.get(&tx_id) {
            Some(t) => Some(*t),
            None => None,
        }
    }

    /// Stores `a` as the account of `client`, opening it if needed.
    fn put_account(&mut self, client: u16, a: Account)
        requires
            old(self).wf(),
            bounded(Ledger { accounts: old(self)@.accounts.insert(client, a@), ..old(self)@ }),
        ensures
            final(self).wf(),
            final(self)@ == (Ledger { accounts: old(self)@.accounts.insert(client, a@), ..old(self)@ }),
            final(self).transactions@ == old(self).transactions@,
    {
        let is_new = !self.accounts.contains_key(&client);
        self.accounts.insert(client, a);
        if is_new {
            assert(!old(self).clients@.contains(client));
            self.clients.push(client);
            assert forall|i: int, j: int|
                0 <= i < j < self.clients@.len() implies self.clients@[i] != self.clients@[j] by {
                if j == self.clients@.len() - 1 {
                    assert(old(self).clients@[i] == self.clients@[i]);
                }
            }
        }
        assert(self@.accounts =~= old(self)@.accounts.insert(client, a@));
        assert forall|c: u16| self.accounts@.contains_key(c) <==> #[trigger] self.clients@.contains(c) by {
            if is_new {
                assert(self.clients@ == old(self).clients@.push(client));
                if self.clients@.contains(c) && c != client {
                    let i = choose|i: int| 0 <= i < self.clients@.len() && self.clients@[i] == c;
                    assert(old(self).clients@[i] == c);
                }
                if old(self).clients@.contains(c) {
                    let i = choose|i: int| 0 <= i < old(self).clients@.len() && old(self).clients@[i] == c;
                    assert(self.clients@[i] == c);
                }
                assert(self.clients@[self.clients@.len() - 1] == client);
            }
        }
    }

    /// Stores `t` as the record of deposit `tx`.
    fn put_transaction(&mut self, tx: u32, t: TransactionRecord)
        requires
            old(self).wf(),
        ensures
            final(self).wf(),
            final(self)@ == (Ledger { txs: old(self)@.txs.insert(tx, t@), ..old(self)@ }),
    {
        self.transactions.insert(tx, t);
        assert(self@.txs =~= old(self)@.txs.insert(tx, t@));
        assert(self@.accounts =~= old(self)@.accounts);
    }

    fn handle_deposit(&mut self, record: InputRecord) -> (r: Result<(), EngineError>)
        requires
            old(self).wf(),
            bounded(deposit_step(old(self)@, record).0),
        ensures
            final(self).wf(),
            final(self)@ == deposit_step(old(self)@, record).0,
            r == deposit_step(old(self)@, record).1,
    {
        let amount = match record.amount {
            None => return Err(EngineError::MissingAmount(record.tx_id)),
            Some(a) => a,
        };
        if amount.units <= 0 {
            return Err(EngineError::AmountNotPositive(record.tx_id));
        }
        if self.transactions.contains_key(&record.tx_id) {
            return Err(EngineError::DuplicateTransactionId(record.tx_id));
        }
        let mut account = match self.accounts.get(&record.client_id) {
            Some(a) => *a,
            None => Account::new(),
        };
        if account.locked {
            return Err(EngineError::AccountLocked(record.client_id));
        }
        assert(deposit_step(old(self)@, record).0.accounts.contains_key(record.client_id));
        account.deposit(amount);
        self.put_account(record.client_id, account);
        self.put_transaction(
            record.tx_id,
            TransactionRecord { amount, status: TransactionStatus::Normal },
        );
        Ok(())
    }

    fn handle_withdrawal(&mut self, record: InputRecord) -> (r: Result<(), EngineError>)
        requires
            old(self).wf(),
            bounded(withdrawal_step(old(self)@, record).0),
        ensures
            final(self).wf(),
            final(self)@ == withdrawal_step(old(self)@, record).0,
            r == withdrawal_step(old(self)@, record).1,
    {
        let amount = match record.amount {
            None => return Err(EngineError::MissingAmount(record.tx_id)),
            Some(a) => a,
        };
        if amount.units <= 0 {
            return Err(EngineError::AmountNotPositive(record.tx_id));
        }
        let mut account = match self.accounts.get(&record.client_id) {
            Some(a) => *a,
            None => return Ok(()),
        };
        if account.locked {
            return Err(EngineError::AccountLocked(record.client_id));
        }
        match account.withdraw(amount) {
            Err(_) => {
                return Err(EngineError::InsufficientFunds(record.client_id, amount));
            },
            Ok(()) => {},
        }
        self.put_account(record.client_id, account);
        Ok(())
    }

    fn handle_dispute(&mut self, record: InputRecord) -> (r: Result<(), EngineError>)
        requires
            old(self).wf(),
            bounded(dispute_step(old(self)@, record).0),
        ensures
            final(self).wf(),
            final(self)@ == dispute_step(old(self)@, record).0,
            r == dispute_step(old(self)@, record).1,
    {
        let tx_id = record.tx_id;
        let mut tx = match self.transactions.get(&tx_id) {
            Some(t) => *t,
            None => return Err(EngineError::TransactionNotFound(tx_id)),
        };
        if tx.status == TransactionStatus::Disputed {
            return Ok(());
        }
        let mut account = match self.accounts.get(&record.client_id) {
            Some(a) => *a,
            None => return Err(EngineError::TransactionNotFound(tx_id)),
        };
        if account.locked {
            return Err(EngineError::AccountLocked(record.client_id));
        }
        assert(dispute_step(old(self)@, record).0.accounts.contains_key(record.client_id));
        account.hold_for_dispute(tx.amount);
        tx.status = TransactionStatus::Disputed;
        self.put_account(record.client_id, account);
        self.put_transaction(tx_id, tx);
        Ok(())
    }

    fn handle_resolve(&mut self, record: InputRecord) -> (r: Result<(), EngineError>)
        requires
            old(self).wf(),
            bounded(resolve_step(old(self)@, record).0),
        ensures
            final(self).wf(),
            final(self)@ == resolve_step(old(self)@, record).0,
            r == resolve_step(old(self)@, record).1,
    {
        let tx_id = record.tx_id;
        let mut tx = match self.transactions.get(&tx_id) {
            Some(t) => *t,
            None => return Err(EngineError::TransactionNotFound(tx_id)),
        };
        if tx.status != TransactionStatus::Disputed {
            return Err(EngineError::TransactionNotDisputed(tx_id));
        }
        let mut account = match self.accounts.get(&record.client_id) {
            Some(a) => *a,
            None => return Err(EngineError::TransactionNotFound(tx_id)),
        };
        if account.locked {
            return Err(EngineError::AccountLocked(record.client_id));
        }
        assert(resolve_step(old(self)@, record).0.accounts.contains_key(record.client_id));
        account.release_from_dispute(tx.amount);
        tx.status = TransactionStatus::Normal;
        self.put_account(record.client_id, account);
        self.put_transaction(tx_id, tx);
        Ok(())
    }

    fn handle_chargeback(&mut self, record: InputRecord) -> (r: Result<(), EngineError>)
        requires
            old(self).wf(),
            bounded(chargeback_step(old(self)@, record).0),
        ensures
            final(self).wf(),
            final(self)@ == chargeback_step(old(self)@, record).0,
            r == chargeback_step(old(self)@, record).1,
    {
        let tx_id = record.tx_id;
        let tx = match self.transactions.get(&tx_id) {
            Some(t) => *t,
            None => return Err(EngineError::TransactionNotFound(tx_id)),
        };
        if tx.status != TransactionStatus::Disputed {
            return Err(EngineError::TransactionNotDisputed(tx_id));
        }
        let mut account = match self.accounts.get(&record.client_id) {
            Some(a) => *a,
            None => return Err(EngineError::TransactionNotFound(tx_id)),
        };
        assert(chargeback_step(old(self)@, record).0.accounts.contains_key(record.client_id));
        account.chargeback(tx.amount);
        self.put_account(record.client_id, account);
        Ok(())
    }

    /// Applies one event. The ledger moves as `step` says, and the result is
    /// the one `step` gives: `Ok` when the event is accepted (a no-op
    /// included), otherwise the reason for the rejection, with the ledger
    /// unchanged.
    pub fn process(&mut self, record: InputRecord) -> (r: Result<(), EngineError>)
        requires
            old(self).wf(),
            bounded(step(old(self)@, record).0),
        ensures
            final(self).wf(),
            final(self)@ == step(old(self)@, record).0,
            r == step(old(self)@, record).1,
    {
        match record.transaction_type {
            TransactionType::Deposit => self.handle_deposit(record),
            TransactionType::Withdrawal => self.handle_withdrawal(record),
            TransactionType::Dispute => self.handle_dispute(record),
            TransactionType::Resolve => self.handle_resolve(record),
            TransactionType::Chargeback => self.handle_chargeback(record),
        }
    }

    /// One output line per account, each client exactly once.
    pub fn snapshot(&self) -> (r: Vec<OutputRecord>)
        requires
            self.wf(),
        ensures
            r@.len() == self@.accounts.dom().len(),
            forall|i: int|
                0 <= i < r@.len() ==> self@.accounts.contains_key(#[trigger] r@[i].client_id)
                    && describes(r@[i], r@[i].client_id, self@.accounts[r@[i].client_id]),
            forall|i: int, j: int|
                0 <= i < j < r@.len() ==> #[trigger] r@[i].client_id != #[trigger] r@[j].client_id,
            forall|c: u16|
                #[trigger] self@.accounts.contains_key(c) ==> exists|i: int|
                    0 <= i < r@.len() && #[trigger] r@[i].client_id == c,
    {
        let mut r: Vec<OutputRecord> = Vec::new();
        let mut i: usize = 0;
        while i < self.clients.len()
            invariant
                self.wf(),
                i <= self.clients@.len(),
                r@.len() == i,
                forall|k: int| 0 <= k < i ==> #[trigger] r@[k].client_id == self.clients@[k],
                forall|k: int|
                    0 <= k < i ==> self@.accounts.contains_key(#[trigger] r@[k].client_id)
                        && describes(r@[k], r@[k].client_id, self@.accounts[r@[k].client_id]),
            decreases self.clients@.len() - i,
        {
            let client = self.clients[i];
            assert(self.clients@.contains(client));
            let a = match self.accounts.get(&client) {
                Some(a) => *a,
                None => {
                    assert(false);
                    Account::new()
                },
            };
            assert(self@.accounts.contains_key(client));
            let total = a.total();
            r.push(
                OutputRecord {
                    client_id: client,
                    available: a.available,
                    held: a.held,
                    total,
                    locked: a.locked,
                },
            );
            i = i + 1;
        }
        assert forall|c: u16| #[trigger] self@.accounts.contains_key(c) implies exists|i: int|
            0 <= i < r@.len() && #[trigger] r@[i].client_id == c by {
            assert(self.clients@.contains(c));
            let k = choose|k: int| 0 <= k < self.clients@.len() && self.clients@[k] == c;
            assert(r@[k].client_id == c);
        }
        proof {
            lemma_count_clients(self);
        }
        r
    }

    /// Whether the balances that `record` would leave all fit an `Amount`,
    /// which `process` needs.
    pub fn can_process(&self, record: &InputRecord) -> (r: bool)
        requires
            self.wf(),
        ensures
            r == bounded(step(self@, *record).0),
    {
        let client = record.client_id;
        let next = Ghost(step(self@, *record).0);
        let account = match self.accounts.get(&client) {
            Some(a) => *a,
            None => Account::new(),
        };
        // The shift of the available and of the held funds, in multiples of
        // `amount`; an event that is rejected or a no-op leaves the ledger as
        // it is, and so within bounds.
        let (amount, to_available, to_held): (Amount, i8, i8) = match record.transaction_type {
            TransactionType::Deposit => {
                match record.amount {
                    Some(a) if a.units > 0 && !self.transactions.contains_key(&record.tx_id)
                        && !account.locked => (a, 1, 0),
                    _ => return true,
                }
            },
            TransactionType::Withdrawal => {
                match record.amount {
                    Some(a) if a.units > 0 && self.accounts.contains_key(&client)
                        && !account.locked && account.available.units >= a.units => (a, -1, 0),
                    _ => return true,
                }
            },
            _ => {
                let tx = match self.transactions.get(&record.tx_id) {
                    Some(t) => *t,
                    None => return true,
                };
                if !self.accounts.contains_key(&client) {
                    return true;
                }
                let disputed = tx.status == TransactionStatus::Disputed;
                match record.transaction_type {
                    TransactionType::Dispute if !disputed && !account.locked => (tx.amount, -1, 1),
                    TransactionType::Resolve if disputed && !account.locked => (tx.amount, 1, -1),
                    TransactionType::Chargeback if disputed => (tx.amount, 0, -1),
                    _ => return true,
                }
            },
        };
        assert(next@.accounts.contains_key(client));
        assert(next@.accounts[client].available == account@.available + to_available * amount@);
        assert(next@.accounts[client].held == account@.held + to_held * amount@);
        assert(next@.accounts =~= self@.accounts.insert(client, next@.accounts[client]));
        shift_fits(&account, amount, to_available, to_held)
    }
}

} // verus!
