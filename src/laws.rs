use vstd::prelude::*;

use crate::account::fresh_account;
use crate::ledger::LedgerState;
use crate::transaction::{applied, opened, Transaction, TransactionError, TransactionType};

verus! {

/// Applying any transaction to a well-formed ledger, successfully or not, leaves it
/// well-formed: in particular every account's total stays equal to its available
/// plus held funds.
pub proof fn lemma_applied_keeps_wf(s: LedgerState, t: Transaction)
    requires
        s.wf(),
    ensures
        applied(s, t).0.wf(),
{
}

/// A deposit followed by a withdrawal of the same amount, for the same client and
/// under a fresh ID, gives back the available funds that the client had before.
/// The prior available funds must not be negative: a withdrawal of more than the
/// available funds is refused.
pub proof fn lemma_deposit_then_withdrawal(
    s: LedgerState,
    deposit: Transaction,
    withdrawal: Transaction,
    amount: i64,
)
    requires
        s.wf(),
        deposit.tx_type == TransactionType::Deposit,
        withdrawal.tx_type == TransactionType::Withdrawal,
        deposit.amount == Some(amount),
        withdrawal.amount == Some(amount),
        deposit.client_id == withdrawal.client_id,
        deposit.tx_id != withdrawal.tx_id,
        !s.transactions.contains_key(withdrawal.tx_id),
        opened(s.accounts, deposit.client_id)[deposit.client_id].available_funds >= 0,
        applied(s, deposit).1 is Ok,
    ensures
        applied(applied(s, deposit).0, withdrawal).1 is Ok,
        applied(applied(s, deposit).0, withdrawal).0.accounts[withdrawal.client_id].available_funds
            == opened(s.accounts, deposit.client_id)[deposit.client_id].available_funds,
{
}

/// Disputing a transaction that is already under dispute fails with
/// `AlreadyDisputed`, and resolving or charging back one that is not fails with
/// `NotDisputed`; the ledger keeps its stored transactions and balances. This holds
/// wherever the checks that come first pass: the client's account is not locked
/// and the referenced transaction exists and is the client's own.
pub proof fn lemma_dispute_guarded(s: LedgerState, t: Transaction)
    requires
        s.wf(),
        !t.tx_type.is_stored_kind(),
        !(s.accounts.contains_key(t.client_id) && s.accounts[t.client_id].is_locked),
        s.transactions.contains_key(t.tx_id),
        s.transactions[t.tx_id].client_id == t.client_id,
    ensures
        t.tx_type == TransactionType::Dispute && s.transactions[t.tx_id].disputed ==> applied(
            s,
            t,
        ).1 == Err::<(), TransactionError>(TransactionError::AlreadyDisputed),
        t.tx_type != TransactionType::Dispute && !s.transactions[t.tx_id].disputed ==> applied(
            s,
            t,
        ).1 == Err::<(), TransactionError>(TransactionError::NotDisputed),
        applied(s, t).1 is Err ==> applied(s, t).0.transactions == s.transactions,
        applied(s, t).1 is Err ==> forall|c: u16| #[trigger]
            s.accounts.contains_key(c) ==> applied(s, t).0.accounts[c] == s.accounts[c],
{
}

/// A deposit or withdrawal whose ID is already taken fails with
/// `DuplicateTransactionID` and leaves the ledger, the stored record under that ID
/// and every balance included, exactly as it was.
pub proof fn lemma_tx_id_write_once(s: LedgerState, t: Transaction)
    requires
        t.tx_type.is_stored_kind(),
        s.transactions.contains_key(t.tx_id),
    ensures
        applied(s, t) == (s, Err::<(), TransactionError>(
            TransactionError::DuplicateTransactionID,
        )),
{
}

/// Once a client's account is locked, every transaction of that client fails with
/// `AccountLocked`, disputes included, and the ledger stays as it was, so the
/// account stays locked. The one exception is a deposit or withdrawal whose ID is
/// already taken: that check comes first and fails with `DuplicateTransactionID`.
pub proof fn lemma_locked_is_final(s: LedgerState, t: Transaction)
    requires
        s.accounts.contains_key(t.client_id),
        s.accounts[t.client_id].is_locked,
        !(t.tx_type.is_stored_kind() && s.transactions.contains_key(t.tx_id)),
    ensures
        applied(s, t) == (s, Err::<(), TransactionError>(TransactionError::AccountLocked)),
{
}

/// No transaction unlocks an account.
pub proof fn lemma_lock_is_monotonic(s: LedgerState, t: Transaction, c: u16)
    requires
        s.accounts.contains_key(c),
        s.accounts[c].is_locked,
    ensures
        applied(s, t).0.accounts.contains_key(c),
        applied(s, t).0.accounts[c].is_locked,
{
}

} // verus!
