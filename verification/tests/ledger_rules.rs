use simple_payment_engine::account::{Account, BALANCE_LIMIT};
use simple_payment_engine::error::ProcessError;
use simple_payment_engine::ledger::Ledger;
use simple_payment_engine::transaction::{Transaction, TransactionState};
use simple_payment_engine::transaction_type::Type;
use simple_payment_engine::TransactionData;

fn funded(client: u16, tx: u32, amount: u64) -> Ledger {
    let mut ledger = Ledger::new();
    assert_eq!(ledger.deposit(client, tx, amount), Ok(()));
    ledger
}

#[test]
fn deposit_opens_account_and_logs_entry() {
    let ledger = funded(7, 1, 12_345);
    assert_eq!(
        ledger.account(7),
        Some(Account { id: 7, available: 12_345, held: 0, locked: false })
    );
    assert_eq!(
        ledger.transaction(1),
        Some(Transaction {
            transaction_type: Type::Deposit,
            client: 7,
            amount: 12_345,
            state: TransactionState::Normal,
        })
    );
}

#[test]
fn deposit_adds_exactly_its_amount() {
    let mut ledger = funded(7, 1, 100);
    assert_eq!(ledger.dispute(1), Ok(()));
    assert_eq!(ledger.deposit(7, 2, 40), Ok(()));
    assert_eq!(
        ledger.account(7),
        Some(Account { id: 7, available: 40, held: 100, locked: false })
    );
    assert_eq!(ledger.account(7).unwrap().total(), 140);
}

#[test]
fn deposit_of_zero_is_logged() {
    let ledger = funded(1, 1, 0);
    assert_eq!(ledger.account(1), Some(Account::new(1)));
    assert_eq!(ledger.transaction(1), Some(Transaction::new(Type::Deposit, 1, 0)));
}

#[test]
fn deposit_under_a_used_identifier_replaces_the_entry() {
    let mut ledger = funded(1, 1, 100);
    assert_eq!(ledger.dispute(1), Ok(()));
    assert_eq!(ledger.deposit(2, 1, 30), Ok(()));
    assert_eq!(ledger.transaction(1), Some(Transaction::new(Type::Deposit, 2, 30)));
    assert_eq!(
        ledger.account(1),
        Some(Account { id: 1, available: 0, held: 100, locked: false })
    );
    assert_eq!(
        ledger.account(2),
        Some(Account { id: 2, available: 30, held: 0, locked: false })
    );
}

#[test]
fn withdrawal_takes_exactly_its_amount() {
    let mut ledger = funded(1, 1, 100);
    assert_eq!(ledger.withdraw(1, 2, 60), Ok(()));
    assert_eq!(
        ledger.account(1),
        Some(Account { id: 1, available: 40, held: 0, locked: false })
    );
    assert_eq!(ledger.transaction(2), Some(Transaction::new(Type::Withdrawal, 1, 60)));
}

#[test]
fn withdrawal_of_everything_is_covered() {
    let mut ledger = funded(1, 1, 100);
    assert_eq!(ledger.withdraw(1, 2, 100), Ok(()));
    assert_eq!(ledger.account(1).unwrap().available, 0);
    assert!(ledger.transaction(2).is_some());
}

#[test]
fn withdrawal_beyond_available_changes_nothing() {
    let mut ledger = funded(1, 1, 100);
    assert_eq!(ledger.withdraw(1, 2, 101), Ok(()));
    assert_eq!(
        ledger.account(1),
        Some(Account { id: 1, available: 100, held: 0, locked: false })
    );
    assert_eq!(ledger.transaction(2), None);
    // The withdrawal was not logged, so a dispute of it finds nothing.
    assert_eq!(ledger.dispute(2), Ok(()));
    assert_eq!(
        ledger.account(1),
        Some(Account { id: 1, available: 100, held: 0, locked: false })
    );
}

#[test]
fn withdrawal_does_not_count_held_funds() {
    let mut ledger = funded(1, 1, 100);
    assert_eq!(ledger.dispute(1), Ok(()));
    assert_eq!(ledger.withdraw(1, 2, 50), Ok(()));
    assert_eq!(ledger.transaction(2), None);
    assert_eq!(
        ledger.account(1),
        Some(Account { id: 1, available: 0, held: 100, locked: false })
    );
}

#[test]
fn dispute_holds_the_amount() {
    let mut ledger = funded(1, 1, 100);
    assert_eq!(ledger.deposit(1, 2, 25), Ok(()));
    assert_eq!(ledger.dispute(1), Ok(()));
    assert_eq!(
        ledger.account(1),
        Some(Account { id: 1, available: 25, held: 100, locked: false })
    );
    assert_eq!(ledger.transaction(1).unwrap().state, TransactionState::Disputed);
    assert_eq!(ledger.transaction(2).unwrap().state, TransactionState::Normal);
}

#[test]
fn dispute_of_a_withdrawal_can_take_available_below_zero() {
    let mut ledger = funded(1, 1, 100);
    assert_eq!(ledger.withdraw(1, 2, 80), Ok(()));
    assert_eq!(ledger.dispute(2), Ok(()));
    assert_eq!(
        ledger.account(1),
        Some(Account { id: 1, available: -60, held: 80, locked: false })
    );
    assert_eq!(ledger.account(1).unwrap().total(), 20);
}

#[test]
fn dispute_of_disputed_or_unknown_entry_changes_nothing() {
    let mut ledger = funded(1, 1, 100);
    assert_eq!(ledger.dispute(1), Ok(()));
    let before = ledger.account(1);
    assert_eq!(ledger.dispute(1), Ok(()));
    assert_eq!(ledger.dispute(99), Ok(()));
    assert_eq!(ledger.account(1), before);
    assert_eq!(ledger.transaction(1).unwrap().state, TransactionState::Disputed);
    assert_eq!(ledger.transaction(99), None);
}

#[test]
fn dispute_goes_by_the_entry_not_by_the_record_client() {
    let mut ledger = funded(1, 1, 100);
    assert_eq!(ledger.deposit(2, 2, 50), Ok(()));
    let record = TransactionData::new(Type::Dispute, 2, 1, None);
    assert_eq!(ledger.apply(&record), Ok(()));
    assert_eq!(
        ledger.account(1),
        Some(Account { id: 1, available: 0, held: 100, locked: false })
    );
    assert_eq!(
        ledger.account(2),
        Some(Account { id: 2, available: 50, held: 0, locked: false })
    );
}

#[test]
fn resolve_releases_the_amount() {
    let mut ledger = funded(1, 1, 100);
    assert_eq!(ledger.dispute(1), Ok(()));
    assert_eq!(ledger.resolve(1), Ok(()));
    assert_eq!(
        ledger.account(1),
        Some(Account { id: 1, available: 100, held: 0, locked: false })
    );
    assert_eq!(ledger.transaction(1).unwrap().state, TransactionState::Resolved);
}

#[test]
fn resolve_without_dispute_changes_nothing() {
    let mut ledger = funded(1, 1, 100);
    assert_eq!(ledger.resolve(1), Ok(()));
    assert_eq!(ledger.resolve(5), Ok(()));
    assert_eq!(
        ledger.account(1),
        Some(Account { id: 1, available: 100, held: 0, locked: false })
    );
    assert_eq!(ledger.transaction(1).unwrap().state, TransactionState::Normal);
}

#[test]
fn resolved_entry_can_be_disputed_again() {
    let mut ledger = funded(1, 1, 100);
    assert_eq!(ledger.dispute(1), Ok(()));
    assert_eq!(ledger.resolve(1), Ok(()));
    assert_eq!(ledger.dispute(1), Ok(()));
    assert_eq!(
        ledger.account(1),
        Some(Account { id: 1, available: 0, held: 100, locked: false })
    );
    assert_eq!(ledger.transaction(1).unwrap().state, TransactionState::Disputed);
}

#[test]
fn chargeback_forfeits_the_amount_and_locks() {
    let mut ledger = funded(1, 1, 100);
    assert_eq!(ledger.deposit(1, 2, 30), Ok(()));
    assert_eq!(ledger.dispute(1), Ok(()));
    assert_eq!(ledger.chargeback(1), Ok(()));
    assert_eq!(
        ledger.account(1),
        Some(Account { id: 1, available: 30, held: 0, locked: true })
    );
    assert_eq!(ledger.transaction(1).unwrap().state, TransactionState::Chargeback);
    assert_eq!(ledger.account(1).unwrap().total(), 30);
}

#[test]
fn chargeback_without_dispute_changes_nothing() {
    let mut ledger = funded(1, 1, 100);
    assert_eq!(ledger.chargeback(1), Ok(()));
    assert_eq!(ledger.chargeback(8), Ok(()));
    assert_eq!(
        ledger.account(1),
        Some(Account { id: 1, available: 100, held: 0, locked: false })
    );
    assert_eq!(ledger.transaction(1).unwrap().state, TransactionState::Normal);
}

#[test]
fn chargeback_is_final() {
    let mut ledger = funded(1, 1, 100);
    assert_eq!(ledger.dispute(1), Ok(()));
    assert_eq!(ledger.chargeback(1), Ok(()));
    let account = ledger.account(1);
    assert_eq!(ledger.dispute(1), Ok(()));
    assert_eq!(ledger.resolve(1), Ok(()));
    assert_eq!(ledger.chargeback(1), Ok(()));
    assert_eq!(ledger.account(1), account);
    assert_eq!(ledger.transaction(1).unwrap().state, TransactionState::Chargeback);
}

#[test]
fn second_resolve_changes_nothing() {
    let mut ledger = funded(1, 1, 100);
    assert_eq!(ledger.dispute(1), Ok(()));
    assert_eq!(ledger.resolve(1), Ok(()));
    let account = ledger.account(1);
    let entry = ledger.transaction(1);
    assert_eq!(ledger.resolve(1), Ok(()));
    assert_eq!(ledger.account(1), account);
    assert_eq!(ledger.transaction(1), entry);
}

#[test]
fn second_chargeback_changes_nothing() {
    let mut ledger = funded(1, 1, 100);
    assert_eq!(ledger.dispute(1), Ok(()));
    assert_eq!(ledger.chargeback(1), Ok(()));
    let account = ledger.account(1);
    let entry = ledger.transaction(1);
    assert_eq!(ledger.chargeback(1), Ok(()));
    assert_eq!(ledger.account(1), account);
    assert_eq!(ledger.transaction(1), entry);
}

#[test]
fn locked_account_still_takes_records() {
    let mut ledger = funded(1, 1, 100);
    assert_eq!(ledger.dispute(1), Ok(()));
    assert_eq!(ledger.chargeback(1), Ok(()));
    assert_eq!(ledger.deposit(1, 2, 70), Ok(()));
    assert_eq!(ledger.withdraw(1, 3, 20), Ok(()));
    assert_eq!(ledger.dispute(2), Ok(()));
    assert_eq!(
        ledger.account(1),
        Some(Account { id: 1, available: -20, held: 70, locked: true })
    );
}

#[test]
fn totals_move_only_with_deposits_withdrawals_and_chargebacks() {
    let mut ledger = funded(1, 1, 100);
    assert_eq!(ledger.account(1).unwrap().total(), 100);
    assert_eq!(ledger.withdraw(1, 2, 30), Ok(()));
    assert_eq!(ledger.account(1).unwrap().total(), 70);
    assert_eq!(ledger.dispute(1), Ok(()));
    assert_eq!(ledger.account(1).unwrap().total(), 70);
    assert_eq!(ledger.resolve(1), Ok(()));
    assert_eq!(ledger.account(1).unwrap().total(), 70);
    assert_eq!(ledger.dispute(1), Ok(()));
    assert_eq!(ledger.chargeback(1), Ok(()));
    assert_eq!(ledger.account(1).unwrap().total(), -30);
}

#[test]
fn deposit_without_amount_is_refused() {
    let mut ledger = funded(1, 1, 100);
    let record = TransactionData::new(Type::Deposit, 1, 2, None);
    assert_eq!(ledger.apply(&record), Err(ProcessError::DepositWithoutAmount));
    assert_eq!(record.process(&mut ledger), Err(ProcessError::DepositWithoutAmount));
    assert_eq!(ledger.account(1).unwrap().available, 100);
    assert_eq!(ledger.transaction(2), None);
}

#[test]
fn withdrawal_without_amount_is_refused() {
    let mut ledger = funded(1, 1, 100);
    let record = TransactionData::new(Type::Withdrawal, 1, 2, None);
    assert_eq!(ledger.apply(&record), Err(ProcessError::WithdrawalWithoutAmount));
    assert_eq!(ledger.account(1).unwrap().available, 100);
    assert_eq!(ledger.transaction(2), None);
}

#[test]
fn dispute_records_ignore_an_amount() {
    let mut ledger = funded(1, 1, 100);
    let record = TransactionData::new(Type::Dispute, 1, 1, Some(5));
    assert_eq!(ledger.apply(&record), Ok(()));
    assert_eq!(
        ledger.account(1),
        Some(Account { id: 1, available: 0, held: 100, locked: false })
    );
}

#[test]
fn deposit_beyond_the_limit_is_refused() {
    let limit = BALANCE_LIMIT as u64;
    let mut ledger = Ledger::new();
    assert_eq!(ledger.deposit(1, 1, limit + 1), Err(ProcessError::BalanceOutOfRange));
    assert_eq!(ledger.account(1), None);
    assert_eq!(ledger.transaction(1), None);
    assert_eq!(ledger.deposit(1, 1, limit), Ok(()));
    assert_eq!(ledger.deposit(1, 2, 1), Err(ProcessError::BalanceOutOfRange));
    assert_eq!(ledger.account(1).unwrap().available, BALANCE_LIMIT);
    assert_eq!(ledger.transaction(2), None);
}

#[test]
fn dispute_beyond_the_limit_is_refused() {
    let limit = BALANCE_LIMIT as u64;
    let mut ledger = funded(1, 1, limit);
    assert_eq!(ledger.withdraw(1, 2, limit), Ok(()));
    assert_eq!(ledger.dispute(2), Ok(()));
    // Available is at the lower limit now, and held at the upper one.
    assert_eq!(
        ledger.account(1),
        Some(Account { id: 1, available: -BALANCE_LIMIT, held: BALANCE_LIMIT, locked: false })
    );
    assert_eq!(ledger.dispute(1), Err(ProcessError::BalanceOutOfRange));
    assert_eq!(ledger.transaction(1).unwrap().state, TransactionState::Normal);
    assert_eq!(ledger.account(1).unwrap().total(), 0);
}

#[test]
fn resolve_beyond_the_limit_is_refused() {
    let limit = BALANCE_LIMIT as u64;
    let mut ledger = funded(1, 1, limit);
    assert_eq!(ledger.dispute(1), Ok(()));
    assert_eq!(ledger.deposit(1, 2, 1), Ok(()));
    assert_eq!(ledger.resolve(1), Err(ProcessError::BalanceOutOfRange));
    assert_eq!(
        ledger.account(1),
        Some(Account { id: 1, available: 1, held: BALANCE_LIMIT, locked: false })
    );
    assert_eq!(ledger.transaction(1).unwrap().state, TransactionState::Disputed);
    // Once the funds are withdrawn, the resolve goes through.
    assert_eq!(ledger.withdraw(1, 3, 1), Ok(()));
    assert_eq!(ledger.resolve(1), Ok(()));
    assert_eq!(
        ledger.account(1),
        Some(Account { id: 1, available: BALANCE_LIMIT, held: 0, locked: false })
    );
}

#[test]
fn replaced_entry_leaves_its_amount_held() {
    let mut ledger = funded(1, 1, 100);
    assert_eq!(ledger.dispute(1), Ok(()));
    assert_eq!(ledger.deposit(1, 1, 40), Ok(()));
    assert_eq!(ledger.resolve(1), Ok(()));
    assert_eq!(
        ledger.account(1),
        Some(Account { id: 1, available: 40, held: 100, locked: false })
    );
    assert_eq!(ledger.dispute(1), Ok(()));
    assert_eq!(ledger.chargeback(1), Ok(()));
    assert_eq!(
        ledger.account(1),
        Some(Account { id: 1, available: 0, held: 100, locked: true })
    );
}

#[test]
fn error_messages() {
    assert_eq!(ProcessError::DepositWithoutAmount.message(), "Deposits should have an amount");
    assert_eq!(
        ProcessError::WithdrawalWithoutAmount.message(),
        "Withdrawals should have an amount"
    );
    assert_eq!(ProcessError::BalanceOutOfRange.message(), "Balance out of range");
}

#[test]
fn accounts_are_listed_by_ascending_client() {
    let mut ledger = Ledger::new();
    for client in [65_535u16, 3, 0, 700, 3] {
        assert_eq!(ledger.deposit(client, client as u32, 1), Ok(()));
    }
    let ids: Vec<u16> = ledger.accounts().iter().map(|account| account.id).collect();
    assert_eq!(ids, vec![0, 3, 700, 65_535]);
    let rows = ledger.accounts();
    assert_eq!(rows[1].available, 2);
    assert_eq!(rows[3].available, 1);
}
