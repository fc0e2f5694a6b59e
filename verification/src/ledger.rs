//! The ledger: every account and every logged transaction, and the rules by
//! which each kind of record changes them.

use crate::account::{Account, AccountView};
use crate::error::ProcessError;
use crate::transaction::{Transaction, TransactionState};
use crate::transaction_type::Type;
use crate::TransactionData;
use std::collections::HashMap;
use vstd::prelude::*;

verus! {

broadcast use vstd::std_specs::hash::group_hash_axioms;

/// A ledger as the contracts see it: accounts by client, logged transactions
/// by transaction identifier.
pub struct LedgerView {
    pub accounts: Map<u16, AccountView>,
    pub transactions: Map<u32, Transaction>,
}

impl LedgerView {
    /// The ledger that holds nothing.
    pub open spec fn empty() -> LedgerView {
        LedgerView { accounts: Map::empty(), transactions: Map::empty() }
    }

    /// The account of `client`, or a newly opened one where the client has
    /// none yet.
    pub open spec fn account(self, client: u16) -> AccountView {
        if self.accounts.contains_key(client) {
            self.accounts[client]
        } else {
            AccountView::opened(client)
        }
    }

    /// Whether every balance is within the limit.
    pub open spec fn in_range(self) -> bool {
        forall|client: u16| #[trigger]
            self.accounts.contains_key(client) ==> self.accounts[client].in_range()
    }

    /// Whether accounts and entries belong together: each account is held
    /// under its own identifier, each entry is a deposit or a withdrawal, and
    /// the client of each entry has an account.
    pub open spec fn consistent(self) -> bool {
        &&& self.accounts.dom().finite()
        &&& self.transactions.dom().finite()
        &&& forall|client: u16| #[trigger]
            self.accounts.contains_key(client) ==> self.accounts[client].id == client
        &&& forall|tx: u32| #[trigger]
            self.transactions.contains_key(tx) ==> {
                &&& self.transactions[tx].transaction_type.is_logged()
                &&& self.accounts.contains_key(self.transactions[tx].client)
            }
    }

    /// Whether this is a state that a ledger can be in.
    pub open spec fn wf(self) -> bool {
        self.consistent() && self.in_range()
    }

    /// Whether a record of kind `kind` that refers to `tx` takes effect: the
    /// entry exists and its state accepts the record.
    pub open spec fn accepts(self, tx: u32, kind: Type) -> bool {
        self.transactions.contains_key(tx) && self.transactions[tx].state.accepts(kind)
    }

    /// The ledger after a deposit of `amount` for `client` under `tx`. The
    /// account is opened if the client had none. An entry that `tx` already
    /// named is replaced.
    pub open spec fn deposit(self, client: u16, tx: u32, amount: u64) -> LedgerView {
        LedgerView {
            accounts: self.accounts.insert(client, self.account(client).credit(amount as int)),
            transactions: self.transactions.insert(
                tx,
                Transaction::logged(Type::Deposit, client, amount),
            ),
        }
    }

    /// Whether a withdrawal of `amount` by `client` takes effect: the client
    /// has an account, and the available funds cover the amount.
    pub open spec fn covers(self, client: u16, amount: u64) -> bool {
        self.accounts.contains_key(client) && self.accounts[client].available >= amount
    }

    /// The ledger after a withdrawal of `amount` by `client` under `tx`:
    /// unchanged unless the withdrawal is covered.
    pub open spec fn withdraw(self, client: u16, tx: u32, amount: u64) -> LedgerView {
        if self.covers(client, amount) {
            LedgerView {
                accounts: self.accounts.insert(
                    client,
                    self.accounts[client].debit(amount as int),
                ),
                transactions: self.transactions.insert(
                    tx,
                    Transaction::logged(Type::Withdrawal, client, amount),
                ),
            }
        } else {
            self
        }
    }

    /// The ledger after a dispute of `tx`: unchanged unless the entry accepts
    /// it; else the entry's amount is held on the account of the entry's
    /// client, whichever kind the entry has.
    pub open spec fn dispute(self, tx: u32) -> LedgerView {
        if self.accepts(tx, Type::Dispute) {
            let entry = self.transactions[tx];
            LedgerView {
                accounts: self.accounts.insert(
                    entry.client,
                    self.accounts[entry.client].hold(entry.amount as int),
                ),
                transactions: self.transactions.insert(tx, entry.advanced(Type::Dispute)),
            }
        } else {
            self
        }
    }

    /// The ledger after a resolve of `tx`: unchanged unless the entry accepts
    /// it; else the entry's amount is released.
    pub open spec fn resolve(self, tx: u32) -> LedgerView {
        if self.accepts(tx, Type::Resolve) {
            let entry = self.transactions[tx];
            LedgerView {
                accounts: self.accounts.insert(
                    entry.client,
                    self.accounts[entry.client].release(entry.amount as int),
                ),
                transactions: self.transactions.insert(tx, entry.advanced(Type::Resolve)),
            }
        } else {
            self
        }
    }

    /// The ledger after a chargeback of `tx`: unchanged unless the entry
    /// accepts it; else the entry's amount is forfeited and the account
    /// locked.
    pub open spec fn chargeback(self, tx: u32) -> LedgerView {
        if self.accepts(tx, Type::Chargeback) {
            let entry = self.transactions[tx];
            LedgerView {
                accounts: self.accounts.insert(
                    entry.client,
                    self.accounts[entry.client].charge_back(entry.amount as int),
                ),
                transactions: self.transactions.insert(tx, entry.advanced(Type::Chargeback)),
            }
        } else {
            self
        }
    }

    /// The ledger after `record`, for a record that carries the amount its
    /// kind needs, and with no regard to the limit on balances.
    pub open spec fn after(self, record: TransactionData) -> LedgerView {
        match record.transaction_type {
            Type::Deposit => self.deposit(record.client, record.id, record.amount->0),
            Type::Withdrawal => self.withdraw(record.client, record.id, record.amount->0),
            Type::Dispute => self.dispute(record.id),
            Type::Resolve => self.resolve(record.id),
            Type::Chargeback => self.chargeback(record.id),
        }
    }

    /// What applying `record` comes to: the error that refuses the record, or
    /// the ledger after it. A deposit or withdrawal without an amount is
    /// refused, and so is a record that would take a balance out of range.
    /// Every other record is applied, those without effect included.
    pub open spec fn apply(self, record: TransactionData) -> Result<LedgerView, ProcessError> {
        if record.missing_amount() is Some {
            Err(record.missing_amount()->0)
        } else if !self.after(record).in_range() {
            Err(ProcessError::BalanceOutOfRange)
        } else {
            Ok(self.after(record))
        }
    }

    /// What applying `records` in order comes to: the first error, or the
    /// ledger after the last record.
    pub open spec fn apply_all(self, records: Seq<TransactionData>) -> Result<
        LedgerView,
        ProcessError,
    >
        decreases records.len(),
    {
        if records.len() == 0 {
            Ok(self)
        } else {
            match self.apply(records[0]) {
                Ok(next) => next.apply_all(records.skip(1)),
                Err(error) => Err(error),
            }
        }
    }
}

/// The views of the accounts in `accounts`, client by client.
pub open spec fn account_views(accounts: Map<u16, Account>) -> Map<u16, AccountView> {
    accounts.map_values(|a: Account| a@)
}

/// Putting an account into the map puts its view into the views.
proof fn lemma_views_insert(accounts: Map<u16, Account>, client: u16, account: Account)
    ensures
        account_views(accounts.insert(client, account)) == account_views(accounts).insert(
            client,
            account@,
        ),
{
    assert(account_views(accounts.insert(client, account)) =~= account_views(accounts).insert(
        client,
        account@,
    ));
}

/// A well-formed ledger stays so when an account in range is put under its
/// own identifier together with an entry of that client.
proof fn lemma_put_keeps_wf(ledger: LedgerView, account: AccountView, tx: u32, entry: Transaction)
    requires
        ledger.wf(),
        account.in_range(),
        entry.client == account.id,
        entry.transaction_type.is_logged(),
    ensures
        (LedgerView {
            accounts: ledger.accounts.insert(account.id, account),
            transactions: ledger.transactions.insert(tx, entry),
        }).wf(),
{
    let next = LedgerView {
        accounts: ledger.accounts.insert(account.id, account),
        transactions: ledger.transactions.insert(tx, entry),
    };
    assert forall|client: u16| #[trigger] next.accounts.contains_key(client) implies {
        &&& next.accounts[client].id == client
        &&& next.accounts[client].in_range()
    } by {
        if client != account.id {
            assert(ledger.accounts.contains_key(client));
        }
    }
    assert forall|other: u32| #[trigger] next.transactions.contains_key(other) implies {
        &&& next.transactions[other].transaction_type.is_logged()
        &&& next.accounts.contains_key(next.transactions[other].client)
    } by {
        if other != tx {
            assert(ledger.transactions.contains_key(other));
        }
    }
}

/// The ledger. It owns the accounts and the logged transactions; records
/// change it one at a time, in the order in which they arrive.
pub struct Ledger {
    accounts: HashMap<u16, Account>,
    transactions: HashMap<u32, Transaction>,
}

impl View for Ledger {
    type V = LedgerView;

    closed spec fn view(&self) -> LedgerView {
        LedgerView {
            accounts: account_views(self.accounts@),
            transactions: self.transactions@,
        }
    }
}

impl Ledger {
    /// Whether the ledger is in a state that a ledger can be in. A new
    /// ledger is, and every operation keeps it so.
    pub open spec fn wf(&self) -> bool {
        self@.wf()
    }

    /// Creates a ledger that holds nothing.
    pub fn new() -> (ledger: Ledger)
        ensures
            ledger.wf(),
            ledger@ == LedgerView::empty(),
    {
        let accounts: HashMap<u16, Account> = HashMap::new();
        let transactions: HashMap<u32, Transaction> = HashMap::new();
        assert(account_views(accounts@) =~= Map::empty());
        Ledger { accounts, transactions }
    }

    /// Applies a deposit of `amount` for `client` under `tx`, unless a balance
    /// would leave the range.
    pub fn deposit(&mut self, client: u16, tx: u32, amount: u64) -> (r: Result<(), ProcessError>)
        requires
            old(self).wf(),
        ensures
            final(self).wf(),
            r is Ok <==> old(self)@.deposit(client, tx, amount).in_range(),
            r is Ok ==> final(self)@ == old(self)@.deposit(client, tx, amount),
            r is Err ==> r == Err::<(), ProcessError>(ProcessError::BalanceOutOfRange)
                && final(self)@ == old(self)@,
            r is Ok ==> {
                &&& final(self)@.accounts.contains_key(client)
                &&& final(self)@.accounts[client].available == old(self)@.account(
                    client,
                ).available + amount
                &&& final(self)@.accounts[client].held == old(self)@.account(client).held
                &&& final(self)@.accounts[client].locked == old(self)@.account(client).locked
                &&& final(self)@.transactions.contains_key(tx)
                &&& final(self)@.transactions[tx] == Transaction::logged(
                    Type::Deposit,
                    client,
                    amount,
                )
            },
    {
        let mut account = match self.accounts.get(&client) {
            Some(found) => *found,
            None => Account::new(client),
        };
        assert(account@ == self@.account(client) && account.id == client) by {
            if self.accounts@.contains_key(client) {
                assert(self@.accounts.contains_key(client));
            }
        }
        if !account.credit(amount) {
            assert(old(self)@.deposit(client, tx, amount).accounts.contains_key(client));
            return Err(ProcessError::BalanceOutOfRange);
        }
        proof {
            lemma_views_insert(self.accounts@, client, account);
            lemma_put_keeps_wf(
                self@,
                account@,
                tx,
                Transaction::logged(Type::Deposit, client, amount),
            );
        }
        self.accounts.insert(client, account);
        self.transactions.insert(tx, Transaction::new(Type::Deposit, client, amount));
        Ok(())
    }

    /// Applies a withdrawal of `amount` by `client` under `tx`. A withdrawal
    /// that is not covered changes nothing. No withdrawal is refused, since
    /// none can take a balance out of range.
    pub fn withdraw(&mut self, client: u16, tx: u32, amount: u64) -> (r: Result<(), ProcessError>)
        requires
            old(self).wf(),
        ensures
            final(self).wf(),
            r is Ok,
            final(self)@ == old(self)@.withdraw(client, tx, amount),
            old(self)@.covers(client, amount) ==> {
                &&& final(self)@.accounts.contains_key(client)
                &&& final(self)@.accounts[client] == (AccountView {
                    available: old(self)@.accounts[client].available - amount,
                    ..old(self)@.accounts[client]
                })
                &&& final(self)@.transactions.contains_key(tx)
                &&& final(self)@.transactions[tx] == Transaction::logged(
                    Type::Withdrawal,
                    client,
                    amount,
                )
            },
            !old(self)@.covers(client, amount) ==> final(self)@ == old(self)@,
    {
        let mut account = match self.accounts.get(&client) {
            Some(found) => *found,
            None => {
                return Ok(());
            },
        };
        if (account.available as i128) < amount as i128 {
            return Ok(());
        }
        assert(self@.accounts.contains_key(client) && self@.accounts[client] == account@);
        let done = account.debit(amount);
        assert(done);
        proof {
            lemma_views_insert(self.accounts@, client, account);
            lemma_put_keeps_wf(
                self@,
                account@,
                tx,
                Transaction::logged(Type::Withdrawal, client, amount),
            );
        }
        self.accounts.insert(client, account);
        self.transactions.insert(tx, Transaction::new(Type::Withdrawal, client, amount));
        Ok(())
    }

    /// The entry under `tx` and the account of its client, where a record of
    /// kind `kind` that refers to `tx` takes effect.
    fn find_accepting(&self, tx: u32, kind: Type) -> (r: Option<(Transaction, Account)>)
        requires
            self.wf(),
        ensures
            match r {
                Some((entry, account)) => {
                    &&& self@.accepts(tx, kind)
                    &&& entry == self@.transactions[tx]
                    &&& self.accounts@.contains_key(entry.client)
                    &&& account == self.accounts@[entry.client]
                },
                None => !self@.accepts(tx, kind),
            },
    {
        let entry = match self.transactions.get(&tx) {
            Some(found) => *found,
            None => {
                return None;
            },
        };
        if !entry.state.is_accepting(kind) {
            return None;
        }
        assert(self@.accounts.contains_key(entry.client));
        match self.accounts.get(&entry.client) {
            Some(found) => Some((entry, *found)),
            None => None,
        }
    }

    /// Puts back an entry whose state has advanced, and the account of its
    /// client with its new balances.
    fn store(&mut self, tx: u32, entry: Transaction, account: Account)
        requires
            old(self).wf(),
            old(self)@.transactions.contains_key(tx),
            entry.client == old(self)@.transactions[tx].client,
            entry.transaction_type == old(self)@.transactions[tx].transaction_type,
            account.id == entry.client,
            account.in_range(),
        ensures
            final(self).wf(),
            final(self)@ == (LedgerView {
                accounts: old(self)@.accounts.insert(entry.client, account@),
                transactions: old(self)@.transactions.insert(tx, entry),
            }),
    {
        proof {
            lemma_views_insert(self.accounts@, entry.client, account);
            lemma_put_keeps_wf(self@, account@, tx, entry);
        }
        self.accounts.insert(entry.client, account);
        self.transactions.insert(tx, entry);
    }

    /// Applies a dispute of `tx`, unless a balance would leave the range. A
    /// dispute that the entry does not accept, or that names no entry,
    /// changes nothing.
    pub fn dispute(&mut self, tx: u32) -> (r: Result<(), ProcessError>)
        requires
            old(self).wf(),
        ensures
            final(self).wf(),
            r is Ok <==> old(self)@.dispute(tx).in_range(),
            r is Ok ==> final(self)@ == old(self)@.dispute(tx),
            r is Err ==> r == Err::<(), ProcessError>(ProcessError::BalanceOutOfRange)
                && final(self)@ == old(self)@,
            !old(self)@.accepts(tx, Type::Dispute) ==> final(self)@ == old(self)@,
            r is Ok && old(self)@.accepts(tx, Type::Dispute) ==> ({
                let entry = old(self)@.transactions[tx];
                let before = old(self)@.accounts[entry.client];
                &&& final(self)@.transactions.contains_key(tx)
                &&& final(self)@.transactions[tx] == (Transaction {
                    state: TransactionState::Disputed,
                    ..entry
                })
                &&& final(self)@.accounts.contains_key(entry.client)
                &&& final(self)@.accounts[entry.client] == (AccountView {
                    available: before.available - entry.amount,
                    held: before.held + entry.amount,
                    ..before
                })
            }),
    {
        match self.find_accepting(tx, Type::Dispute) {
            None => Ok(()),
            Some((mut entry, mut account)) => {
                if !account.hold(entry.amount) {
                    assert(old(self)@.dispute(tx).accounts.contains_key(entry.client));
                    return Err(ProcessError::BalanceOutOfRange);
                }
                entry.advance(Type::Dispute);
                self.store(tx, entry, account);
                Ok(())
            },
        }
    }

    /// Applies a resolve of `tx`, unless a balance would leave the range. A
    /// resolve that the entry does not accept, or that names no entry,
    /// changes nothing.
    pub fn resolve(&mut self, tx: u32) -> (r: Result<(), ProcessError>)
        requires
            old(self).wf(),
        ensures
            final(self).wf(),
            r is Ok <==> old(self)@.resolve(tx).in_range(),
            r is Ok ==> final(self)@ == old(self)@.resolve(tx),
            r is Err ==> r == Err::<(), ProcessError>(ProcessError::BalanceOutOfRange)
                && final(self)@ == old(self)@,
            !old(self)@.accepts(tx, Type::Resolve) ==> final(self)@ == old(self)@,
            r is Ok && old(self)@.accepts(tx, Type::Resolve) ==> ({
                let entry = old(self)@.transactions[tx];
                let before = old(self)@.accounts[entry.client];
                &&& final(self)@.transactions.contains_key(tx)
                &&& final(self)@.transactions[tx] == (Transaction {
                    state: TransactionState::Resolved,
                    ..entry
                })
                &&& final(self)@.accounts.contains_key(entry.client)
                &&& final(self)@.accounts[entry.client] == (AccountView {
                    available: before.available + entry.amount,
                    held: before.held - entry.amount,
                    ..before
                })
            }),
    {
        match self.find_accepting(tx, Type::Resolve) {
            None => Ok(()),
            Some((mut entry, mut account)) => {
                if !account.release(entry.amount) {
                    assert(old(self)@.resolve(tx).accounts.contains_key(entry.client));
                    return Err(ProcessError::BalanceOutOfRange);
                }
                entry.advance(Type::Resolve);
                self.store(tx, entry, account);
                Ok(())
            },
        }
    }

    /// Applies a chargeback of `tx`, unless a balance would leave the range.
    /// A chargeback that the entry does not accept, or that names no entry,
    /// changes nothing.
    pub fn chargeback(&mut self, tx: u32) -> (r: Result<(), ProcessError>)
        requires
            old(self).wf(),
        ensures
            final(self).wf(),
            r is Ok <==> old(self)@.chargeback(tx).in_range(),
            r is Ok ==> final(self)@ == old(self)@.chargeback(tx),
            r is Err ==> r == Err::<(), ProcessError>(ProcessError::BalanceOutOfRange)
                && final(self)@ == old(self)@,
            !old(self)@.accepts(tx, Type::Chargeback) ==> final(self)@ == old(self)@,
            r is Ok && old(self)@.accepts(tx, Type::Chargeback) ==> ({
                let entry = old(self)@.transactions[tx];
                let before = old(self)@.accounts[entry.client];
                &&& final(self)@.transactions.contains_key(tx)
                &&& final(self)@.transactions[tx] == (Transaction {
                    state: TransactionState::Chargeback,
                    ..entry
                })
                &&& final(self)@.accounts.contains_key(entry.client)
                &&& final(self)@.accounts[entry.client] == (AccountView {
                    held: before.held - entry.amount,
                    locked: true,
                    ..before
                })
            }),
    {
        match self.find_accepting(tx, Type::Chargeback) {
            None => Ok(()),
            Some((mut entry, mut account)) => {
                if !account.charge_back(entry.amount) {
                    assert(old(self)@.chargeback(tx).accounts.contains_key(entry.client));
                    return Err(ProcessError::BalanceOutOfRange);
                }
                entry.advance(Type::Chargeback);
                self.store(tx, entry, account);
                Ok(())
            },
        }
    }

    /// Applies one record. On an error the ledger stays as it was; a record
    /// that breaks a rule of the ledger is no error, and changes nothing.
    pub fn apply(&mut self, record: &TransactionData) -> (r: Result<(), ProcessError>)
        requires
            old(self).wf(),
        ensures
            final(self).wf(),
            match old(self)@.apply(*record) {
                Ok(next) => r is Ok && final(self)@ == next,
                Err(error) => r == Err::<(), ProcessError>(error) && final(self)@ == old(self)@,
            },
    {
        match record.transaction_type {
            Type::Deposit => match record.amount {
                Some(amount) => self.deposit(record.client, record.id, amount),
                None => Err(ProcessError::DepositWithoutAmount),
            },
            Type::Withdrawal => match record.amount {
                Some(amount) => self.withdraw(record.client, record.id, amount),
                None => Err(ProcessError::WithdrawalWithoutAmount),
            },
            Type::Dispute => self.dispute(record.id),
            Type::Resolve => self.resolve(record.id),
            Type::Chargeback => self.chargeback(record.id),
        }
    }

    /// Every account, in ascending order of client identifier.
    pub fn accounts(&self) -> (rows: Vec<Account>)
        requires
            self.wf(),
        ensures
            forall|i: int|
                #![trigger rows[i]]
                0 <= i < rows.len() ==> {
                    &&& self@.accounts.contains_key(rows[i].id)
                    &&& self@.accounts[rows[i].id] == rows[i]@
                    &&& rows[i].in_range()
                },
            forall|client: u16| #[trigger]
                self@.accounts.contains_key(client) ==> exists|i: int|
                    0 <= i < rows.len() && (#[trigger] rows[i]).id == client,
            forall|i: int, j: int|
                #![trigger rows[i], rows[j]]
                0 <= i < j < rows.len() ==> rows[i].id < rows[j].id,
    {
        let mut rows: Vec<Account> = Vec::new();
        let mut next: u32 = 0;
        while next <= 0xffff
            invariant
                next <= 0x1_0000,
                self.wf(),
                forall|i: int|
                    #![trigger rows[i]]
                    0 <= i < rows.len() ==> {
                        &&& rows[i].id < next
                        &&& self@.accounts.contains_key(rows[i].id)
                        &&& self@.accounts[rows[i].id] == rows[i]@
                        &&& rows[i].in_range()
                    },
                forall|client: u16| #[trigger]
                    self@.accounts.contains_key(client) && client < next ==> exists|i: int|
                        0 <= i < rows.len() && (#[trigger] rows[i]).id == client,
                forall|i: int, j: int|
                    #![trigger rows[i], rows[j]]
                    0 <= i < j < rows.len() ==> rows[i].id < rows[j].id,
            decreases 0x1_0000 - next,
        {
            let client: u16 = next as u16;
            let ghost before = rows@;
            match self.accounts.get(&client) {
                Some(account) => {
                    assert(self@.accounts.contains_key(client));
                    rows.push(*account);
                    assert(rows[before.len() as int].id == client);
                    assert(forall|i: int| 0 <= i < before.len() ==> rows[i] == before[i]);
                },
                None => {},
            }
            next += 1;
        }
        rows
    }

    /// The account of `client`, if the client has one.
    pub fn account(&self, client: u16) -> (r: Option<Account>)
        ensures
            r is Some <==> self@.accounts.contains_key(client),
            r is Some ==> r->0@ == self@.accounts[client],
    {
        match self.accounts.get(&client) {
            Some(account) => Some(*account),
            None => None,
        }
    }

    /// The entry logged under `tx`, if there is one.
    pub fn transaction(&self, tx: u32) -> (r: Option<Transaction>)
        ensures
            r is Some <==> self@.transactions.contains_key(tx),
            r is Some ==> r->0 == self@.transactions[tx],
    {
        match self.transactions.get(&tx) {
            Some(entry) => Some(*entry),
            None => None,
        }
    }
}

} // verus!
