use vstd::prelude::*;

pub mod account;
pub mod amount;
pub mod laws;
pub mod ledger;
pub mod transaction;

verus! {

} // verus!
