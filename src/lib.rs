//! A peer-to-peer lending ledger: a pooled store of participant
//! classifications and loans, the loan lifecycle (request, fund, repay) with
//! its eligibility rules and interest, and the transfers each step asks the
//! host to carry out.

pub mod interest;
pub mod laws;
pub mod ledger;
pub mod peer_to_peer_lending;
pub mod state;
