//! Client accounts and the balance movements that the ledger performs on them.

use vstd::prelude::*;

verus! {

/// The largest magnitude that a balance may reach, in minor units. It leaves
/// room for the sum of the two balances of an account.
pub const BALANCE_LIMIT: i64 = 0x3fff_ffff_ffff_ffff;

/// An account as the contracts see it: its balances are mathematical
/// integers, so that movements on them never wrap.
pub struct AccountView {
    pub id: u16,
    pub available: int,
    pub held: int,
    pub locked: bool,
}

impl AccountView {
    /// The account of a client that was just opened: nothing available,
    /// nothing held, not locked.
    pub open spec fn opened(id: u16) -> AccountView {
        AccountView { id, available: 0, held: 0, locked: false }
    }

    /// The funds of the account, available or held.
    pub open spec fn total(self) -> int {
        self.available + self.held
    }

    /// Whether both balances are within `BALANCE_LIMIT` of zero.
    pub open spec fn in_range(self) -> bool {
        &&& -BALANCE_LIMIT <= self.available <= BALANCE_LIMIT
        &&& -BALANCE_LIMIT <= self.held <= BALANCE_LIMIT
    }

    /// The account after `amount` was added to the available funds.
    pub open spec fn credit(self, amount: int) -> AccountView {
        AccountView { available: self.available + amount, ..self }
    }

    /// The account after `amount` was taken from the available funds.
    pub open spec fn debit(self, amount: int) -> AccountView {
        AccountView { available: self.available - amount, ..self }
    }

    /// The account after `amount` was moved from the available funds to the
    /// held ones.
    pub open spec fn hold(self, amount: int) -> AccountView {
        AccountView { available: self.available - amount, held: self.held + amount, ..self }
    }

    /// The account after `amount` was moved from the held funds back to the
    /// available ones.
    pub open spec fn release(self, amount: int) -> AccountView {
        AccountView { available: self.available + amount, held: self.held - amount, ..self }
    }

    /// The account after `amount` of held funds was forfeited: the account is
    /// locked, and the available funds stay as they are.
    pub open spec fn charge_back(self, amount: int) -> AccountView {
        AccountView { held: self.held - amount, locked: true, ..self }
    }
}

/// The balance state of one client. Balances are signed counts of minor
/// units.
#[derive(Copy, Clone, Debug, PartialEq, Eq, Structural)]
pub struct Account {
    pub id: u16,
    /// Funds usable for withdrawal.
    pub available: i64,
    /// Funds frozen while a dispute is open.
    pub held: i64,
    /// Set by a chargeback, and never cleared.
    pub locked: bool,
}

impl View for Account {
    type V = AccountView;

    open spec fn view(&self) -> AccountView {
        AccountView {
            id: self.id,
            available: self.available as int,
            held: self.held as int,
            locked: self.locked,
        }
    }
}

impl Account {
    /// Whether both balances are within `BALANCE_LIMIT` of zero.
    pub open spec fn in_range(&self) -> bool {
        self@.in_range()
    }

    /// Opens an account with zero balances, unlocked.
    pub fn new(id: u16) -> (a: Account)
        ensures
            a@ == AccountView::opened(id),
    {
        Account { id, available: 0, held: 0, locked: false }
    }

    /// Decides whether both balances are within `BALANCE_LIMIT` of zero.
    pub fn is_in_range(&self) -> (r: bool)
        ensures
            r == self.in_range(),
    {
        -BALANCE_LIMIT <= self.available && self.available <= BALANCE_LIMIT && -BALANCE_LIMIT
            <= self.held && self.held <= BALANCE_LIMIT
    }

    /// The funds of the account, available or held.
    pub fn total(&self) -> (t: i64)
        requires
            self.in_range(),
        ensures
            t == self@.total(),
    {
        self.available + self.held
    }

    /// Installs the balances `available` and `held` if both are in range,
    /// and says whether it did.
    fn set_balances(&mut self, available: i128, held: i128) -> (done: bool)
        ensures
            done <==> -BALANCE_LIMIT <= available <= BALANCE_LIMIT && -BALANCE_LIMIT <= held
                <= BALANCE_LIMIT,
            done ==> final(self)@ == (AccountView {
                available: available as int,
                held: held as int,
                ..old(self)@
            }),
            !done ==> *final(self) == *old(self),
    {
        let limit: i128 = BALANCE_LIMIT as i128;
        if -limit <= available && available <= limit && -limit <= held && held <= limit {
            self.available = available as i64;
            self.held = held as i64;
            true
        } else {
            false
        }
    }

    /// Adds `amount` to the available funds, unless that would leave the
    /// range; says whether it did.
    pub fn credit(&mut self, amount: u64) -> (done: bool)
        ensures
            done == old(self)@.credit(amount as int).in_range(),
            final(self)@ == if done {
                old(self)@.credit(amount as int)
            } else {
                old(self)@
            },
    {
        self.set_balances(self.available as i128 + amount as i128, self.held as i128)
    }

    /// Takes `amount` from the available funds, unless that would leave the
    /// range; says whether it did.
    pub fn debit(&mut self, amount: u64) -> (done: bool)
        ensures
            done == old(self)@.debit(amount as int).in_range(),
            final(self)@ == if done {
                old(self)@.debit(amount as int)
            } else {
                old(self)@
            },
    {
        self.set_balances(self.available as i128 - amount as i128, self.held as i128)
    }

    /// Moves `amount` from the available funds to the held ones, unless that
    /// would leave the range; says whether it did.
    pub fn hold(&mut self, amount: u64) -> (done: bool)
        ensures
            done == old(self)@.hold(amount as int).in_range(),
            final(self)@ == if done {
                old(self)@.hold(amount as int)
            } else {
                old(self)@
            },
    {
        self.set_balances(
            self.available as i128 - amount as i128,
            self.held as i128 + amount as i128,
        )
    }

    /// Moves `amount` from the held funds back to the available ones, unless
    /// that would leave the range; says whether it did.
    pub fn release(&mut self, amount: u64) -> (done: bool)
        ensures
            done == old(self)@.release(amount as int).in_range(),
            final(self)@ == if done {
                old(self)@.release(amount as int)
            } else {
                old(self)@
            },
    {
        self.set_balances(
            self.available as i128 + amount as i128,
            self.held as i128 - amount as i128,
        )
    }

    /// Forfeits `amount` of held funds and locks the account, unless the held
    /// balance would leave the range; says whether it did.
    pub fn charge_back(&mut self, amount: u64) -> (done: bool)
        ensures
            done == old(self)@.charge_back(amount as int).in_range(),
            final(self)@ == if done {
                old(self)@.charge_back(amount as int)
            } else {
                old(self)@
            },
    {
        let done = self.set_balances(self.available as i128, self.held as i128 - amount as i128);
        if done {
            self.locked = true;
        }
        done
    }
}

} // verus!
