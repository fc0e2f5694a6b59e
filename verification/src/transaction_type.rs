//! The kinds of record that a ledger accepts.

use vstd::prelude::*;

verus! {

/// The kind of a transaction record.
#[derive(Copy, Clone, Debug, PartialEq, Eq, Structural)]
pub enum Type {
    Deposit,
    Withdrawal,
    Dispute,
    Resolve,
    Chargeback,
}

impl Type {
    /// Whether records of this kind are logged as ledger entries.
    pub open spec fn is_logged(self) -> bool {
        self == Type::Deposit || self == Type::Withdrawal
    }

    /// Whether records of this kind carry an amount.
    pub fn carries_amount(self) -> (r: bool)
        ensures
            r == self.is_logged(),
    {
        match self {
            Type::Deposit => true,
            Type::Withdrawal => true,
            Type::Dispute => false,
            Type::Resolve => false,
            Type::Chargeback => false,
        }
    }
}

} // verus!
