use vstd::prelude::*;

use crate::transaction::TransactionError;

verus! {

/// Whether an integer fits in the fixed-point representation of a balance.
pub open spec fn fits(x: int) -> bool {
    i64::MIN <= x <= i64::MAX
}

/// The account a client gets the first time one of its transactions is seen.
pub open spec fn fresh_account(client_id: u16) -> Account {
    Account {
        client_id,
        available_funds: 0,
        held_funds: 0,
        total_funds: 0,
        is_locked: false,
    }
}

/// `acct` with `available_delta` added to its available funds and `held_delta` to its
/// held funds, the total recomputed; an overflow error where a balance leaves the
/// representable range.
pub open spec fn moved(acct: Account, available_delta: int, held_delta: int) -> Result<
    Account,
    TransactionError,
> {
    let available = acct.available_funds + available_delta;
    let held = acct.held_funds + held_delta;
    if fits(available) && fits(held) && fits(available + held) {
        Ok(
            Account {
                available_funds: available as i64,
                held_funds: held as i64,
                total_funds: (available + held) as i64,
                ..acct
            },
        )
    } else {
        Err(TransactionError::BalanceOverflow)
    }
}

/// Balance state of one client. Amounts are fixed-point numbers counted in
/// ten-thousandths of a currency unit.
#[derive(Debug, Clone, Copy, PartialEq, Eq, Structural)]
pub struct Account {
    /// Client ID.
    pub client_id: u16,
    /// Funds the client can use.
    pub available_funds: i64,
    /// Funds held back by open disputes.
    pub held_funds: i64,
    /// Available and held funds together.
    pub total_funds: i64,
    /// Set by a chargeback; never cleared.
    pub is_locked: bool,
}

impl Account {
    /// The total is the sum of the available and held funds.
    pub open spec fn balanced(self) -> bool {
        self.total_funds == self.available_funds + self.held_funds
    }

    /// An unlocked account with zero balances.
    pub fn new(id: u16) -> (r: Account)
        ensures
            r == fresh_account(id),
            r.balanced(),
    {
        Account {
            client_id: id,
            held_funds: 0,
            available_funds: 0,
            total_funds: 0,
            is_locked: false,
        }
    }

    /// Moves the balances by the given amounts and recomputes the total, or reports
    /// that a balance would overflow.
    pub(crate) fn moved_by(&self, available_delta: i128, held_delta: i128) -> (r: Result<
        Account,
        TransactionError,
    >)
        requires
            -0x1_0000_0000_0000_0000 < available_delta < 0x1_0000_0000_0000_0000,
            -0x1_0000_0000_0000_0000 < held_delta < 0x1_0000_0000_0000_0000,
        ensures
            r == moved(*self, available_delta as int, held_delta as int),
    {
        let available: i128 = self.available_funds as i128 + available_delta;
        let held: i128 = self.held_funds as i128 + held_delta;
        let total: i128 = available + held;
        let lo: i128 = i64::MIN as i128;
        let hi: i128 = i64::MAX as i128;
        if lo <= available && available <= hi && lo <= held && held <= hi && lo <= total && total
            <= hi {
            Ok(
                Account {
                    client_id: self.client_id,
                    available_funds: available as i64,
                    held_funds: held as i64,
                    total_funds: total as i64,
                    is_locked: self.is_locked,
                },
            )
        } else {
            Err(TransactionError::BalanceOverflow)
        }
    }
}

} // verus!
