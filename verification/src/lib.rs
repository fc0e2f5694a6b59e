//! A payment ledger: client accounts, the deposits and withdrawals logged
//! against them, and the dispute lifecycle of each logged transaction.

use crate::error::ProcessError;
use crate::ledger::{Ledger, LedgerView};
use crate::transaction_type::Type;
use vstd::prelude::*;

pub mod account;
pub mod error;
pub mod laws;
pub mod ledger;
pub mod transaction;
pub mod transaction_type;

verus! {

/// A single transaction record, as it arrives.
#[derive(Copy, Clone, Debug, PartialEq, Eq, Structural)]
pub struct TransactionData {
    pub transaction_type: Type,
    pub client: u16,
    /// The transaction that the record logs, or refers to.
    pub id: u32,
    /// The amount in minor units. Deposits and withdrawals need one; the
    /// other kinds make no use of it.
    pub amount: Option<u64>,
}

impl TransactionData {
    /// The error that refuses this record for want of an amount, if it lacks
    /// one that its kind needs.
    pub open spec fn missing_amount(&self) -> Option<ProcessError> {
        if self.amount is Some {
            None
        } else {
            match self.transaction_type {
                Type::Deposit => Some(ProcessError::DepositWithoutAmount),
                Type::Withdrawal => Some(ProcessError::WithdrawalWithoutAmount),
                _ => None,
            }
        }
    }

    /// Creates a record.
    pub fn new(transaction_type: Type, client: u16, id: u32, amount: Option<u64>) -> (record:
        TransactionData)
        ensures
            record == (TransactionData { transaction_type, client, id, amount }),
    {
        TransactionData { transaction_type, client, id, amount }
    }

    /// Decides whether this record lacks an amount that its kind needs. Such
    /// a record is malformed, and a ledger refuses it.
    pub fn lacks_amount(&self) -> (r: bool)
        ensures
            r == self.missing_amount() is Some,
    {
        self.amount.is_none() && self.transaction_type.carries_amount()
    }

    /// Processes this record, updating the ledger. On an error the ledger
    /// stays as it was.
    pub fn process(&self, ledger: &mut Ledger) -> (r: Result<(), ProcessError>)
        requires
            old(ledger).wf(),
        ensures
            final(ledger).wf(),
            match old(ledger)@.apply(*self) {
                Ok(next) => r is Ok && final(ledger)@ == next,
                Err(error) => r == Err::<(), ProcessError>(error) && final(ledger)@ == old(
                    ledger,
                )@,
            },
    {
        ledger.apply(self)
    }
}

/// Processes records one at a time, in order, on a ledger that starts empty.
/// Returns the ledger after the last record, or the error of the first record
/// that was refused.
pub fn process_records(records: &Vec<TransactionData>) -> (r: Result<Ledger, ProcessError>)
    ensures
        match LedgerView::empty().apply_all(records@) {
            Ok(last) => r is Ok && r->Ok_0.wf() && r->Ok_0@ == last,
            Err(error) => r is Err && r->Err_0 == error,
        },
{
    let mut ledger = Ledger::new();
    let mut i: usize = 0;
    assert(records@.skip(0) =~= records@);
    while i < records.len()
        invariant
            i <= records.len(),
            ledger.wf(),
            LedgerView::empty().apply_all(records@) == ledger@.apply_all(records@.skip(i as int)),
        decreases records.len() - i,
    {
        assert(records@.skip(i as int).skip(1) =~= records@.skip(i + 1));
        match records[i].process(&mut ledger) {
            Ok(()) => {},
            Err(error) => {
                return Err(error);
            },
        }
        i += 1;
    }
    Ok(ledger)
}

} // verus!
