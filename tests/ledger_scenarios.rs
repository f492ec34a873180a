use std::collections::HashMap;

use ledger::account::Account;
use ledger::ledger::Ledger;
use ledger::transaction::{Transaction, TransactionError, TransactionType};

/// Ten-thousandths in one currency unit.
const UNIT: i64 = 10_000;

fn record(tx_type: TransactionType, client_id: u16, tx_id: u32, amount: Option<i64>) -> Transaction {
    Transaction { tx_type, client_id, tx_id, amount: amount.map(|a| a * UNIT), disputed: false }
}

fn deposit(client_id: u16, tx_id: u32, amount: i64) -> Transaction {
    record(TransactionType::Deposit, client_id, tx_id, Some(amount))
}

fn withdrawal(client_id: u16, tx_id: u32, amount: i64) -> Transaction {
    record(TransactionType::Withdrawal, client_id, tx_id, Some(amount))
}

fn dispute(client_id: u16, tx_id: u32) -> Transaction {
    record(TransactionType::Dispute, client_id, tx_id, None)
}

fn resolve(client_id: u16, tx_id: u32) -> Transaction {
    record(TransactionType::Resolve, client_id, tx_id, None)
}

fn chargeback(client_id: u16, tx_id: u32) -> Transaction {
    record(TransactionType::Chargeback, client_id, tx_id, None)
}

fn account(client_id: u16, available: i64, held: i64, total: i64, is_locked: bool) -> Account {
    Account {
        client_id,
        available_funds: available * UNIT,
        held_funds: held * UNIT,
        total_funds: total * UNIT,
        is_locked,
    }
}

/// Applies the records in order and stops at the first error.
fn create_test_ledger(records: &[Transaction]) -> Result<Ledger, TransactionError> {
    let mut ledger = Ledger::new(HashMap::new(), HashMap::new());
    for t in records {
        t.append_to(&mut ledger)?;
    }
    Ok(ledger)
}

#[test]
fn main_account_balances_should_add_up() {
    let ledger = create_test_ledger(&[
        deposit(1, 1, 1),
        deposit(1, 3, 2),
        deposit(2, 5, 9),
        withdrawal(2, 6, 5),
    ])
    .unwrap();

    assert_eq!(ledger.accounts.get(&1).unwrap(), &account(1, 3, 0, 3, false));
    assert_eq!(ledger.accounts.get(&2).unwrap(), &account(2, 4, 0, 4, false));
}

#[test]
fn disputes_of_unknown_transactions_should_fail() {
    let err = create_test_ledger(&[
        deposit(1, 1, 1),
        deposit(2, 2, 2),
        deposit(1, 3, 2),
        dispute(1, 5),
    ])
    .unwrap_err();

    assert_eq!(err, TransactionError::TransactionNotFound);
}

#[test]
fn valid_disputes_should_hold_funds() {
    let ledger =
        create_test_ledger(&[deposit(1, 1, 1), deposit(1, 3, 2), dispute(1, 1)]).unwrap();

    assert!(ledger.accounts.values().eq(vec![&account(1, 2, 1, 3, false)]));
}

#[test]
fn main_valid_chargeback_should_lock_account() {
    let ledger = create_test_ledger(&[
        deposit(1, 1, 1),
        deposit(1, 3, 2),
        dispute(1, 1),
        chargeback(1, 1),
    ])
    .unwrap();

    assert!(ledger.accounts.values().eq(vec![&account(1, 2, 0, 2, true)]));
}

#[test]
fn disputes_of_non_matching_client_id_should_fail() {
    let err = create_test_ledger(&[deposit(1, 1, 1), dispute(2, 1)]).unwrap_err();

    assert_eq!(err, TransactionError::Unauthorized);
}

/// A client spends and then disputes the first deposit: the chargeback
/// locks the account and leaves it negative.
#[test]
fn prevent_malicious_actor() {
    let ledger = create_test_ledger(&[
        deposit(1, 1, 100),
        withdrawal(1, 2, 50),
        withdrawal(1, 3, 50),
        dispute(1, 1),
        chargeback(1, 1),
    ])
    .unwrap();

    assert_eq!(ledger.accounts.get(&1).unwrap(), &account(1, -100, 0, -100, true));
}

/// A dispute on a locked account is refused and marks nothing as disputed.
#[test]
fn disputes_of_locked_accounts_should_fail() {
    let err = create_test_ledger(&[
        deposit(1, 1, 100),
        withdrawal(1, 2, 50),
        dispute(1, 2),
        chargeback(1, 2),
        dispute(1, 2),
    ])
    .unwrap_err();

    assert_eq!(err, TransactionError::AccountLocked);
}

#[test]
fn deposits_without_an_amount_should_fail() {
    let err = create_test_ledger(&[record(TransactionType::Deposit, 1, 1, None)]).unwrap_err();

    assert_eq!(err, TransactionError::Malformed);
}

#[test]
fn withdrawals_without_an_amount_should_fail() {
    let err =
        create_test_ledger(&[record(TransactionType::Withdrawal, 1, 1, None)]).unwrap_err();

    assert_eq!(err, TransactionError::Malformed);
}

#[test]
fn process_rows_which_omit_final_comma() {
    let ledger = create_test_ledger(&[
        deposit(1, 1, 100),
        withdrawal(1, 2, 90),
        dispute(1, 1),
        resolve(1, 1),
        dispute(1, 1),
        chargeback(1, 1),
    ])
    .unwrap();

    assert_eq!(ledger.accounts.get(&1).unwrap(), &account(1, -90, 0, -90, true));
}

#[test]
fn withdrawing_more_than_available_should_fail() {
    let err = create_test_ledger(&[deposit(1, 1, 100), withdrawal(1, 2, 120)]).unwrap_err();

    assert_eq!(err, TransactionError::InsufficientFunds);
}

/// The funds of a disputed withdrawal have already left the account, so the
/// dispute raises the held funds without lowering the available funds.
#[test]
fn disputes_of_withdrawal_should_increase_held_funds_but_not_available_funds() {
    let ledger =
        create_test_ledger(&[deposit(1, 1, 100), withdrawal(1, 2, 90), dispute(1, 2)]).unwrap();

    assert_eq!(ledger.accounts.get(&1).unwrap(), &account(1, 10, 90, 100, false));
}

#[test]
fn resolving_a_disputed_withdrawal_restores_balances() {
    let ledger = create_test_ledger(&[
        deposit(1, 1, 100),
        withdrawal(1, 2, 90),
        dispute(1, 2),
        resolve(1, 2),
    ])
    .unwrap();

    assert_eq!(ledger.accounts.get(&1).unwrap(), &account(1, 100, 0, 100, false));
}

#[test]
fn chargeback_on_a_disputed_withdrawal_removes_held_funds() {
    let ledger = create_test_ledger(&[
        deposit(1, 1, 100),
        withdrawal(1, 2, 90),
        dispute(1, 2),
        chargeback(1, 2),
    ])
    .unwrap();

    assert_eq!(ledger.accounts.get(&1).unwrap(), &account(1, 10, 0, 10, true));
}

#[test]
fn second_transaction_with_duplicate_id_should_fail() {
    let mut ledger = create_test_ledger(&[deposit(1, 1, 100)]).unwrap();

    let err = withdrawal(1, 1, 90).append_to(&mut ledger).unwrap_err();

    // Rejects adding the new transaction.
    assert_eq!(err, TransactionError::DuplicateTransactionID);

    // Keeps the first transaction.
    assert_eq!(ledger.transactions.get(&1).unwrap(), &deposit(1, 1, 100));
}

#[test]
fn tests_account_balances_should_add_up() {
    let ledger = create_test_ledger(&[deposit(1, 1, 1), deposit(1, 3, 2)]).unwrap();

    assert!(ledger.accounts.values().eq(vec![&account(1, 3, 0, 3, false)]));
}

#[test]
#[should_panic]
fn erroneous_disputes_should_panic() {
    let records = [deposit(1, 1, 1), deposit(2, 2, 2), deposit(1, 3, 2), dispute(1, 5)];
    let mut ledger = Ledger::new(HashMap::new(), HashMap::new());
    for t in &records {
        t.append_to(&mut ledger).unwrap();
    }
}

#[test]
fn valid_dispute_should_hold_funds() {
    let ledger =
        create_test_ledger(&[deposit(1, 1, 1), deposit(1, 3, 2), dispute(1, 1)]).unwrap();

    assert!(ledger.accounts.values().eq(vec![&account(1, 2, 1, 3, false)]));
}

#[test]
fn tests_valid_chargeback_should_lock_account() {
    let ledger = create_test_ledger(&[
        deposit(1, 1, 1),
        deposit(1, 3, 2),
        dispute(1, 1),
        chargeback(1, 1),
    ])
    .unwrap();

    assert!(ledger.accounts.values().eq(vec![&account(1, 2, 0, 2, true)]));
}
