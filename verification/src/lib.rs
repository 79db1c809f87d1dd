//! A custodial staking ledger for non-fungible tokens.
//!
//! The library accepts deposits of tokens from an allow-listed set of
//! collections, enforces a fixed-length unbonding delay before withdrawal,
//! and grants a single admin the power to permanently seize a staked token.
//! Every operation is a pure function of the persisted state, the call
//! arguments and the caller-supplied current time; the host that persists
//! state, validates addresses and delivers custody commands sits outside.

pub mod contract;
pub mod error;
pub mod laws;
pub mod msg;
pub mod response;
pub mod state;
pub mod transitions;
