//! Stake-weighted governance: participants lock tokens, earn voting power from
//! the size and age of their stake, submit proposals against a refundable
//! deposit, vote inside a bounded window, and see proposals finalized and
//! executed under quorum, threshold and timelock rules.
//!
//! Every operation is one transition on plain records. The caller supplies the
//! current time and whatever it read from storage, and receives the records'
//! new values together with the token transfers it has to carry out.

pub mod errors;
pub mod execution;
pub mod identity;
pub mod ledger;
pub mod limits;
pub mod parameter_store;
pub mod proposal;
pub mod staking;
pub mod voting_power;
