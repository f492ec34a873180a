use std::collections::HashMap;

use vstd::prelude::*;

use crate::account::Account;
use crate::transaction::Transaction;

verus! {

/// The ledger as a pair of mathematical maps.
pub ghost struct LedgerState {
    pub transactions: Map<u32, Transaction>,
    pub accounts: Map<u16, Account>,
}

impl LedgerState {
    /// Every account is stored under its own client ID and has its total equal to
    /// available plus held; every stored transaction is a deposit or withdrawal with
    /// an amount, stored under its own ID.
    pub open spec fn wf(self) -> bool {
        &&& forall|c: u16| #[trigger]
            self.accounts.contains_key(c) ==> self.accounts[c].client_id == c
                && self.accounts[c].balanced()
        &&& forall|i: u32| #[trigger]
            self.transactions.contains_key(i) ==> self.transactions[i].tx_id == i
                && self.transactions[i].tx_type.is_stored_kind()
                && self.transactions[i].amount is Some
    }
}

/// Stored deposits and withdrawals by transaction ID, and accounts by client ID.
#[derive(Debug)]
pub struct Ledger {
    pub transactions: HashMap<u32, Transaction>,
    pub accounts: HashMap<u16, Account>,
}

impl View for Ledger {
    type V = LedgerState;

    open spec fn view(&self) -> LedgerState {
        LedgerState { transactions: self.transactions@, accounts: self.accounts@ }
    }
}

impl Ledger {
    pub fn new(transactions: HashMap<u32, Transaction>, accounts: HashMap<u16, Account>) -> (r:
        Ledger)
        ensures
            r@ == (LedgerState { transactions: transactions@, accounts: accounts@ }),
            transactions@.is_empty() && accounts@.is_empty() ==> r@.wf(),
    {
        Ledger { transactions, accounts }
    }
}

} // verus!
