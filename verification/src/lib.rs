//! The rules of a house, campaign and player economy on a ledger: houses register
//! campaigns that fund reward pools, players spend energy to open sessions, and
//! sessions settle by a payout that releases what was reserved for them.
//!
//! Every operation is a function from plain values to plain values. It says what
//! the records are afterwards and what value is to move; it moves nothing itself.
//! An operation that is refused leaves every record as it was.

use vstd::prelude::*;

pub mod energy;
pub mod errors;
pub mod identity;
pub mod instructions;
pub mod laws;
pub mod ledger;
pub mod pubkey;
pub mod state;

verus! {

} // verus!
