//! The ledger core of a multi-currency wallet: exact money arithmetic,
//! accounts with non-negative balances, the transaction state machine, and
//! the events that announce each committed change to a message broker.

use vstd::prelude::*;

pub mod account;
pub mod client;
pub mod ledger;
pub mod money;
pub mod requests;
pub mod notify;
pub mod transaction;
pub mod user;

verus! {

} // verus!
