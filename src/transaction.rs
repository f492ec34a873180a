use std::collections::HashMap;

use vstd::prelude::*;

use crate::account::{fresh_account, moved, Account};
use crate::laws::lemma_applied_keeps_wf;
use crate::ledger::{Ledger, LedgerState};

verus! {

broadcast use vstd::std_specs::hash::group_hash_axioms;

/// What a transaction record asks the ledger to do.
#[derive(Debug, Clone, Copy, PartialEq, Eq, Structural)]
pub enum TransactionType {
    /// Credits the amount to the client's available funds.
    Deposit,
    /// Debits the amount from the client's available funds.
    Withdrawal,
    /// Holds the funds of an earlier deposit or withdrawal pending a decision.
    Dispute,
    /// Ends a dispute and releases the held funds to available.
    Resolve,
    /// Ends a dispute by reversing it: the held funds go, and the account locks.
    Chargeback,
}

impl TransactionType {
    /// Deposits and withdrawals are stored and can be disputed; the other kinds only
    /// refer to a stored one.
    pub open spec fn is_stored_kind(self) -> bool {
        self == TransactionType::Deposit || self == TransactionType::Withdrawal
    }
}

/// Why a transaction was not applied.
#[non_exhaustive]
#[derive(Debug, Clone, Copy, PartialEq, Eq, Structural)]
pub enum TransactionError {
    /// A deposit or withdrawal without an amount.
    Malformed,
    /// A deposit or withdrawal whose ID is already taken.
    DuplicateTransactionID,
    /// A withdrawal of more than the available funds.
    InsufficientFunds,
    /// The referenced transaction is not in the ledger.
    TransactionNotFound,
    /// Resolving or charging back a transaction that is not disputed.
    NotDisputed,
    /// Disputing a transaction that is already disputed.
    AlreadyDisputed,
    /// The referenced transaction is neither a deposit nor a withdrawal.
    Indisputable,
    /// The client's account is locked.
    AccountLocked,
    /// The referenced transaction belongs to another client.
    Unauthorized,
    /// A balance would leave the range of the fixed-point representation.
    BalanceOverflow,
}

/// One record of the input. Amounts are fixed-point numbers counted in
/// ten-thousandths of a currency unit.
#[derive(Debug, Clone, Copy, PartialEq, Eq, Structural)]
pub struct Transaction {
    /// Type of transaction.
    pub tx_type: TransactionType,
    /// Client ID.
    pub client_id: u16,
    /// Transaction ID: of this record for a deposit or withdrawal, of the referenced
    /// record for the other kinds.
    pub tx_id: u32,
    /// Present for deposits and withdrawals.
    pub amount: Option<i64>,
    /// Whether a stored deposit or withdrawal is under dispute.
    pub disputed: bool,
}

impl Transaction {
    /// Deposits and withdrawals are stored and can be disputed.
    fn is_stored_kind(&self) -> (r: bool)
        ensures
            r == self.tx_type.is_stored_kind(),
    {
        match self.tx_type {
            TransactionType::Deposit | TransactionType::Withdrawal => true,
            _ => false,
        }
    }

    fn is_disputed(&self) -> (r: Result<(), TransactionError>)
        ensures
            r == if self.disputed {
                Ok(())
            } else {
                Err(TransactionError::NotDisputed)
            },
    {
        if !self.disputed {
            Err(TransactionError::NotDisputed)
        } else {
            Ok(())
        }
    }

    fn is_not_disputed(&self) -> (r: Result<(), TransactionError>)
        ensures
            r == if self.disputed {
                Err(TransactionError::AlreadyDisputed)
            } else {
                Ok(())
            },
    {
        if self.disputed {
            Err(TransactionError::AlreadyDisputed)
        } else {
            Ok(())
        }
    }

    fn get_amount(&self) -> (r: Result<i64, TransactionError>)
        ensures
            r == match self.amount {
                Some(a) => Ok(a),
                None => Err(TransactionError::Malformed),
            },
    {
        match self.amount {
            Some(a) => Ok(a),
            None => Err(TransactionError::Malformed),
        }
    }

    /// Fetches the client's account, creating it where it is missing, and fails where
    /// it is locked.
    fn get_account(&self, accounts: &mut HashMap<u16, Account>) -> (r: Result<
        Account,
        TransactionError,
    >)
        ensures
            final(accounts)@ == opened(old(accounts)@, self.client_id),
            r == if opened(old(accounts)@, self.client_id)[self.client_id].is_locked {
                Err(TransactionError::AccountLocked)
            } else {
                Ok(opened(old(accounts)@, self.client_id)[self.client_id])
            },
    {
        let account = match accounts.get(&self.client_id) {
            Some(a) => *a,
            None => {
                let a = Account::new(self.client_id);
                accounts.insert(self.client_id, a);
                a
            },
        };
        if account.is_locked {
            return Err(TransactionError::AccountLocked);
        }
        Ok(account)
    }

    /// Looks up the stored transaction that this one refers to.
    fn get_referenced_tx(&self, transactions: &HashMap<u32, Transaction>) -> (r: Result<
        Transaction,
        TransactionError,
    >)
        ensures
            r == referenced(transactions@, *self),
    {
        let referenced_tx = match transactions.get(&self.tx_id) {
            Some(r) => *r,
            None => {
                return Err(TransactionError::TransactionNotFound);
            },
        };
        if self.client_id != referenced_tx.client_id {
            return Err(TransactionError::Unauthorized);
        }
        if !referenced_tx.is_stored_kind() {
            return Err(TransactionError::Indisputable);
        }
        Ok(referenced_tx)
    }
    /// Applies this transaction to the ledger: moves the client's balances, sets or
    /// clears a dispute flag, locks the account on a chargeback, and stores a deposit
    /// or withdrawal under its ID. The client's account is created where it is
    /// missing. On failure nothing else changes.
    pub fn append_to(&self, ledger: &mut Ledger) -> (r: Result<(), TransactionError>)
        ensures
            (final(ledger)@, r) == applied(old(ledger)@, *self),
            old(ledger)@.wf() ==> final(ledger)@.wf(),
    {
        proof {
            if ledger@.wf() {
                lemma_applied_keeps_wf(ledger@, *self);
            }
        }
        if self.is_stored_kind() && ledger.transactions.contains_key(&self.tx_id) {
            return Err(TransactionError::DuplicateTransactionID);
        }
        let account = match self.get_account(&mut ledger.accounts) {
            Ok(a) => a,
            Err(e) => {
                return Err(e);
            },
        };
        let updated = match self.tx_type {
            TransactionType::Deposit => {
                let amount = match self.get_amount() {
                    Ok(a) => a,
                    Err(e) => {
                        return Err(e);
                    },
                };
                let updated = match account.moved_by(amount as i128, 0) {
                    Ok(n) => n,
                    Err(e) => {
                        return Err(e);
                    },
                };
                ledger.transactions.insert(self.tx_id, Transaction { disputed: false, ..*self });
                updated
            },
            TransactionType::Withdrawal => {
                let amount = match self.get_amount() {
                    Ok(a) => a,
                    Err(e) => {
                        return Err(e);
                    },
                };
                if amount > account.available_funds {
                    return Err(TransactionError::InsufficientFunds);
                }
                let updated = match account.moved_by(-(amount as i128), 0) {
                    Ok(n) => n,
                    Err(e) => {
                        return Err(e);
                    },
                };
                ledger.transactions.insert(self.tx_id, Transaction { disputed: false, ..*self });
                updated
            },
            _ => {
                let referenced_tx = match self.get_referenced_tx(&ledger.transactions) {
                    Ok(t) => t,
                    Err(e) => {
                        return Err(e);
                    },
                };
                let amount = match referenced_tx.get_amount() {
                    Ok(a) => a,
                    Err(e) => {
                        return Err(e);
                    },
                };
                let check = match self.tx_type {
                    TransactionType::Dispute => referenced_tx.is_not_disputed(),
                    _ => referenced_tx.is_disputed(),
                };
                if let Err(e) = check {
                    return Err(e);
                }
                let a = amount as i128;
                let moved = match self.tx_type {
                    TransactionType::Dispute => if referenced_tx.tx_type == TransactionType::Deposit {
                        account.moved_by(-a, a)
                    } else {
                        account.moved_by(0, a)
                    },
                    TransactionType::Resolve => account.moved_by(a, -a),
                    _ => account.moved_by(0, -a),
                };
                let updated = match moved {
                    Ok(n) => n,
                    Err(e) => {
                        return Err(e);
                    },
                };
                let now_disputed = self.tx_type == TransactionType::Dispute;
                ledger.transactions.insert(
                    self.tx_id,
                    Transaction { disputed: now_disputed, ..referenced_tx },
                );
                Account { is_locked: self.tx_type == TransactionType::Chargeback, ..updated }
            },
        };
        ledger.accounts.insert(self.client_id, updated);
        Ok(())
    }
}

/// `accounts` with a fresh account for `c` where it has none.
pub open spec fn opened(accounts: Map<u16, Account>, c: u16) -> Map<u16, Account> {
    if accounts.contains_key(c) {
        accounts
    } else {
        accounts.insert(c, fresh_account(c))
    }
}

/// The stored deposit or withdrawal that `t` refers to, if `t`'s client owns it.
pub open spec fn referenced(transactions: Map<u32, Transaction>, t: Transaction) -> Result<
    Transaction,
    TransactionError,
> {
    if !transactions.contains_key(t.tx_id) {
        Err(TransactionError::TransactionNotFound)
    } else if transactions[t.tx_id].client_id != t.client_id {
        Err(TransactionError::Unauthorized)
    } else if !transactions[t.tx_id].tx_type.is_stored_kind() {
        Err(TransactionError::Indisputable)
    } else {
        Ok(transactions[t.tx_id])
    }
}

/// What `t` does to the stored transactions and to its client's unlocked account
/// `acct`, or why it fails.
pub open spec fn outcome(transactions: Map<u32, Transaction>, acct: Account, t: Transaction) -> Result<
    (Map<u32, Transaction>, Account),
    TransactionError,
> {
    match t.tx_type {
        TransactionType::Deposit => match t.amount {
            None => Err(TransactionError::Malformed),
            Some(a) => match moved(acct, a as int, 0) {
                Ok(n) => Ok((transactions.insert(t.tx_id, Transaction { disputed: false, ..t }), n)),
                Err(e) => Err(e),
            },
        },
        TransactionType::Withdrawal => match t.amount {
            None => Err(TransactionError::Malformed),
            Some(a) => if a > acct.available_funds {
                Err(TransactionError::InsufficientFunds)
            } else {
                match moved(acct, -a, 0) {
                    Ok(n) => Ok(
                        (transactions.insert(t.tx_id, Transaction { disputed: false, ..t }), n),
                    ),
                    Err(e) => Err(e),
                }
            },
        },
        _ => match referenced(transactions, t) {
            Err(e) => Err(e),
            Ok(r) => match r.amount {
                None => Err(TransactionError::Malformed),
                Some(a) => {
                    let now_disputed = t.tx_type == TransactionType::Dispute;
                    if t.tx_type == TransactionType::Dispute && r.disputed {
                        Err(TransactionError::AlreadyDisputed)
                    } else if t.tx_type != TransactionType::Dispute && !r.disputed {
                        Err(TransactionError::NotDisputed)
                    } else {
                        let m = match t.tx_type {
                            TransactionType::Dispute => if r.tx_type == TransactionType::Deposit {
                                moved(acct, -a, a as int)
                            } else {
                                moved(acct, 0, a as int)
                            },
                            TransactionType::Resolve => moved(acct, a as int, -a),
                            _ => moved(acct, 0, -a),
                        };
                        match m {
                            Ok(n) => Ok(
                                (
                                    transactions.insert(
                                        t.tx_id,
                                        Transaction { disputed: now_disputed, ..r },
                                    ),
                                    Account {
                                        is_locked: t.tx_type == TransactionType::Chargeback,
                                        ..n
                                    },
                                ),
                            ),
                            Err(e) => Err(e),
                        }
                    }
                },
            },
        },
    }
}

/// The ledger after `t` is applied to `s`, and the result of the application.
/// A failed application leaves `s` as it was, but for the fresh account that the
/// client gets once its ID has been looked up.
pub open spec fn applied(s: LedgerState, t: Transaction) -> (LedgerState, Result<(), TransactionError>) {
    if t.tx_type.is_stored_kind() && s.transactions.contains_key(t.tx_id) {
        (s, Err(TransactionError::DuplicateTransactionID))
    } else {
        let accounts = opened(s.accounts, t.client_id);
        let s1 = LedgerState { transactions: s.transactions, accounts };
        if accounts[t.client_id].is_locked {
            (s1, Err(TransactionError::AccountLocked))
        } else {
            match outcome(s.transactions, accounts[t.client_id], t) {
                Ok((transactions, acct)) => (
                    LedgerState { transactions, accounts: accounts.insert(t.client_id, acct) },
                    Ok(()),
                ),
                Err(e) => (s1, Err(e)),
            }
        }
    }
}

} // verus!
