//! Single-validator stake pool: verified core logic.
//!
//! Depositors lock a stake delegation into a pool-controlled account and
//! receive fungible pool tokens representing proportional ownership;
//! withdrawers burn tokens to reclaim a proportional stake delegation.
//! This crate holds the deterministic account derivations, the account
//! validation rules, the deposit/withdraw exchange computation, the
//! replenish reconciliation state machine, and the instruction builders,
//! all with machine-checked contracts.

pub mod addr;
pub mod cli;
pub mod collaborator;
pub mod derivation;
pub mod error;
pub mod exchange;
pub mod ids;
pub mod instruction;
pub mod replenish;
pub mod stake_account;
pub mod state;
pub mod token_state;
pub mod validation;
