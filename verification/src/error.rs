//! The ways in which a record can fail to be processed.

use vstd::prelude::*;

verus! {

/// Why a record was refused. A refused record leaves the ledger as it was.
#[derive(Copy, Clone, Debug, PartialEq, Eq, Structural)]
pub enum ProcessError {
    /// A deposit record that carries no amount.
    DepositWithoutAmount,
    /// A withdrawal record that carries no amount.
    WithdrawalWithoutAmount,
    /// The record would take a balance further from zero than
    /// `BALANCE_LIMIT`.
    BalanceOutOfRange,
}

impl ProcessError {
    /// The text that describes this error.
    pub open spec fn text(self) -> Seq<char> {
        match self {
            ProcessError::DepositWithoutAmount => "Deposits should have an amount"@,
            ProcessError::WithdrawalWithoutAmount => "Withdrawals should have an amount"@,
            ProcessError::BalanceOutOfRange => "Balance out of range"@,
        }
    }

    /// A description of the error for the user.
    pub fn message(&self) -> (s: &'static str)
        ensures
            s@ == self.text(),
    {
        match self {
            ProcessError::DepositWithoutAmount => "Deposits should have an amount",
            ProcessError::WithdrawalWithoutAmount => "Withdrawals should have an amount",
            ProcessError::BalanceOutOfRange => "Balance out of range",
        }
    }
}

} // verus!
