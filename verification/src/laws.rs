//! What holds of the ledger's rules whatever the records are: stated over
//! the ledger's view and proved here.

use crate::ledger::LedgerView;
use crate::transaction::TransactionState;
use crate::transaction_type::Type;
use crate::TransactionData;
use vstd::prelude::*;

verus! {

/// Resolving twice is resolving once: the second resolve finds the entry
/// resolved, or finds what the first one found, and changes nothing.
pub proof fn resolve_is_idempotent(ledger: LedgerView, tx: u32)
    ensures
        ledger.resolve(tx).resolve(tx) == ledger.resolve(tx),
{
    if ledger.accepts(tx, Type::Resolve) {
        assert(!ledger.resolve(tx).accepts(tx, Type::Resolve));
    }
}

/// Charging back twice is charging back once.
pub proof fn chargeback_is_idempotent(ledger: LedgerView, tx: u32)
    ensures
        ledger.chargeback(tx).chargeback(tx) == ledger.chargeback(tx),
{
    if ledger.accepts(tx, Type::Chargeback) {
        assert(!ledger.chargeback(tx).accepts(tx, Type::Chargeback));
    }
}

/// A resolve or chargeback record that was applied can be applied again, and
/// then leaves the ledger as the first application left it.
pub proof fn settling_record_is_idempotent(ledger: LedgerView, record: TransactionData)
    requires
        record.transaction_type == Type::Resolve || record.transaction_type == Type::Chargeback,
        ledger.apply(record) is Ok,
    ensures
        ledger.apply(record)->Ok_0.apply(record) == ledger.apply(record),
{
    resolve_is_idempotent(ledger, record.id);
    chargeback_is_idempotent(ledger, record.id);
}

/// A chargeback is final: no dispute, resolve or chargeback changes a ledger
/// through an entry that was charged back.
pub proof fn chargeback_is_terminal(ledger: LedgerView, tx: u32)
    requires
        ledger.transactions.contains_key(tx),
        ledger.transactions[tx].state == TransactionState::Chargeback,
    ensures
        ledger.dispute(tx) == ledger,
        ledger.resolve(tx) == ledger,
        ledger.chargeback(tx) == ledger,
{
}

/// A deposit adds its amount to the total of the client's account.
pub proof fn deposit_adds_to_total(ledger: LedgerView, client: u16, tx: u32, amount: u64)
    ensures
        ledger.deposit(client, tx, amount).account(client).total() == ledger.account(
            client,
        ).total() + amount,
{
}

/// A withdrawal that is covered takes its amount from the total of the
/// client's account; one that is not leaves the ledger as it is.
pub proof fn withdrawal_takes_from_total(ledger: LedgerView, client: u16, tx: u32, amount: u64)
    ensures
        ledger.covers(client, amount) ==> ledger.withdraw(client, tx, amount).account(
            client,
        ).total() == ledger.account(client).total() - amount,
        !ledger.covers(client, amount) ==> ledger.withdraw(client, tx, amount) == ledger,
{
}

/// Neither a dispute nor a resolve changes the total of any account: they
/// move funds between the available and the held balance.
pub proof fn dispute_and_resolve_keep_totals(ledger: LedgerView, tx: u32, client: u16)
    requires
        ledger.consistent(),
    ensures
        ledger.dispute(tx).account(client).total() == ledger.account(client).total(),
        ledger.resolve(tx).account(client).total() == ledger.account(client).total(),
{
    if ledger.transactions.contains_key(tx) {
        assert(ledger.accounts.contains_key(ledger.transactions[tx].client));
    }
}

/// A chargeback that the entry accepts takes the entry's amount from the
/// total of the account of the entry's client, and changes no other total.
pub proof fn chargeback_forfeits_amount(ledger: LedgerView, tx: u32, client: u16)
    requires
        ledger.consistent(),
        ledger.accepts(tx, Type::Chargeback),
    ensures
        ledger.chargeback(tx).account(client).total() == if client
            == ledger.transactions[tx].client {
            ledger.account(client).total() - ledger.transactions[tx].amount
        } else {
            ledger.account(client).total()
        },
{
    assert(ledger.accounts.contains_key(ledger.transactions[tx].client));
}

/// No record unlocks an account: one that is locked stays locked.
pub proof fn lock_is_permanent(ledger: LedgerView, record: TransactionData, client: u16)
    requires
        ledger.consistent(),
        ledger.account(client).locked,
    ensures
        ledger.after(record).account(client).locked,
{
    if ledger.transactions.contains_key(record.id) {
        assert(ledger.accounts.contains_key(ledger.transactions[record.id].client));
    }
}

/// No record removes an account or an entry.
pub proof fn nothing_is_deleted(ledger: LedgerView, record: TransactionData, client: u16, tx: u32)
    ensures
        ledger.accounts.contains_key(client) ==> ledger.after(record).accounts.contains_key(
            client,
        ),
        ledger.transactions.contains_key(tx) ==> ledger.after(record).transactions.contains_key(
            tx,
        ),
{
}

/// Every record keeps a consistent ledger consistent. In particular, the
/// client of every entry has an account whenever a record refers to the
/// entry.
pub proof fn records_keep_consistency(ledger: LedgerView, record: TransactionData)
    requires
        ledger.consistent(),
    ensures
        ledger.after(record).consistent(),
{
    let next = ledger.after(record);
    assert forall|client: u16| #[trigger]
        next.accounts.contains_key(client) implies next.accounts[client].id == client by {
        if ledger.transactions.contains_key(record.id) {
            assert(ledger.accounts.contains_key(ledger.transactions[record.id].client));
        }
    }
    assert forall|tx: u32| #[trigger] next.transactions.contains_key(tx) implies {
        &&& next.transactions[tx].transaction_type.is_logged()
        &&& next.accounts.contains_key(next.transactions[tx].client)
    } by {
        assert(tx == record.id || ledger.transactions.contains_key(tx));
    }
}

/// Every record that is applied keeps a well-formed ledger well-formed.
pub proof fn applied_record_keeps_wf(ledger: LedgerView, record: TransactionData)
    requires
        ledger.wf(),
        ledger.apply(record) is Ok,
    ensures
        ledger.apply(record)->Ok_0.wf(),
{
    records_keep_consistency(ledger, record);
}

/// Whatever the records are, the ledger that results from applying them in
/// order to a well-formed ledger is well-formed.
pub proof fn applied_records_keep_wf(ledger: LedgerView, records: Seq<TransactionData>)
    requires
        ledger.wf(),
        ledger.apply_all(records) is Ok,
    ensures
        ledger.apply_all(records)->Ok_0.wf(),
    decreases records.len(),
{
    if records.len() > 0 {
        applied_record_keeps_wf(ledger, records[0]);
        applied_records_keep_wf(ledger.apply(records[0])->Ok_0, records.skip(1));
    }
}

/// Only a deposit opens an account, and only for its own client.
pub proof fn only_deposits_open_accounts(ledger: LedgerView, record: TransactionData, client: u16)
    requires
        ledger.consistent(),
        !ledger.accounts.contains_key(client),
        ledger.after(record).accounts.contains_key(client),
    ensures
        record.transaction_type == Type::Deposit,
        record.client == client,
{
    if ledger.transactions.contains_key(record.id) {
        assert(ledger.accounts.contains_key(ledger.transactions[record.id].client));
    }
}

} // verus!
