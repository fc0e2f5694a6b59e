//! Ledger entries and the dispute lifecycle that each of them goes through.

use crate::transaction_type::Type;
use vstd::prelude::*;

verus! {

/// Where a logged transaction stands in its dispute lifecycle.
#[derive(Copy, Clone, Debug, PartialEq, Eq, Structural)]
pub enum TransactionState {
    /// Logged and never disputed since.
    Normal,
    /// Under dispute: its amount is held.
    Disputed,
    /// A dispute was settled in the client's favour; it may be disputed again.
    Resolved,
    /// A dispute ended in a chargeback. Nothing changes this state again.
    Chargeback,
}

impl TransactionState {
    /// Whether a record of kind `kind` that refers to an entry in this state
    /// takes effect. Deposits and withdrawals refer to no entry, so they are
    /// accepted in no state.
    pub open spec fn accepts(self, kind: Type) -> bool {
        match kind {
            Type::Dispute => self == TransactionState::Normal || self == TransactionState::Resolved,
            Type::Resolve => self == TransactionState::Disputed,
            Type::Chargeback => self == TransactionState::Disputed,
            Type::Deposit => false,
            Type::Withdrawal => false,
        }
    }

    /// The state that follows this one when a record of kind `kind` refers to
    /// the entry: a total function, which leaves the state as it is wherever
    /// the record is not accepted.
    pub open spec fn after(self, kind: Type) -> TransactionState {
        if !self.accepts(kind) {
            self
        } else {
            match kind {
                Type::Dispute => TransactionState::Disputed,
                Type::Resolve => TransactionState::Resolved,
                _ => TransactionState::Chargeback,
            }
        }
    }

    /// Decides whether a record of kind `kind` takes effect on an entry in
    /// this state.
    pub fn is_accepting(self, kind: Type) -> (r: bool)
        ensures
            r == self.accepts(kind),
    {
        match kind {
            Type::Dispute => match self {
                TransactionState::Normal => true,
                TransactionState::Resolved => true,
                TransactionState::Disputed => false,
                TransactionState::Chargeback => false,
            },
            Type::Resolve => match self {
                TransactionState::Disputed => true,
                _ => false,
            },
            Type::Chargeback => match self {
                TransactionState::Disputed => true,
                _ => false,
            },
            Type::Deposit => false,
            Type::Withdrawal => false,
        }
    }

    /// Computes the state that follows this one under a record of kind `kind`.
    pub fn next(self, kind: Type) -> (r: TransactionState)
        ensures
            r == self.after(kind),
    {
        if !self.is_accepting(kind) {
            self
        } else {
            match kind {
                Type::Dispute => TransactionState::Disputed,
                Type::Resolve => TransactionState::Resolved,
                _ => TransactionState::Chargeback,
            }
        }
    }
}

/// A single ledger entry: a deposit or withdrawal as it was logged, with its
/// dispute state. The entry's identifier is the key under which the ledger
/// holds it.
#[derive(Copy, Clone, Debug, PartialEq, Eq, Structural)]
pub struct Transaction {
    pub transaction_type: Type,
    pub client: u16,
    /// The amount in minor units, fixed for the entry's lifetime.
    pub amount: u64,
    pub state: TransactionState,
}

impl Transaction {
    /// The entry that a record produces when it is logged.
    pub open spec fn logged(transaction_type: Type, client: u16, amount: u64) -> Transaction {
        Transaction { transaction_type, client, amount, state: TransactionState::Normal }
    }

    /// This entry with its state advanced by a record of kind `kind`.
    pub open spec fn advanced(self, kind: Type) -> Transaction {
        Transaction { state: self.state.after(kind), ..self }
    }

    /// Creates an entry in the `Normal` state.
    pub fn new(transaction_type: Type, client: u16, amount: u64) -> (t: Transaction)
        ensures
            t == Transaction::logged(transaction_type, client, amount),
    {
        Transaction { transaction_type, client, amount, state: TransactionState::Normal }
    }

    /// Advances the entry's state by a record of kind `kind`; the identity of
    /// the entry stays as it is.
    pub fn advance(&mut self, kind: Type)
        ensures
            *final(self) == old(self).advanced(kind),
    {
        self.state = self.state.next(kind);
    }
}

} // verus!
