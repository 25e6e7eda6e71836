//! Core of an autonomous treasury vault: it accumulates a native balance,
//! periodically converts everything above a fixed baseline into a token
//! through an external swap venue, burns a fixed majority share of the
//! proceeds, and escrows the remainder under a time lock.
//!
//! This crate holds the vault's state machine: the state record, the timing
//! and profit gates, the deterministic burn/lock split, the timelock release
//! rule, and the derivation of the vault's subordinate addresses. Moving the
//! funds themselves — ledger transfers, the swap invocation, account
//! creation — is the hosting program's job: it calls `crank_begin` before the
//! swap and `crank_settle` after it, and performs exactly the movements those
//! decisions return.

use vstd::prelude::*;

pub mod addressing;
pub mod crank;
pub mod deposit;
pub mod errors;
pub mod events;
pub mod lifecycle;
pub mod state;
pub mod transaction;
pub mod unlock;

verus! {

/// Minimum number of seconds that must elapse between two successful cranks.
pub const CRANK_INTERVAL_SECS: i64 = 150;

/// Fixed maturity duration: each crank locks the escrowed tokens until this
/// many seconds after its own execution time.
pub const TIMELOCK_SECS: i64 = 7 * 24 * 60 * 60;

/// Share of each crank's token proceeds that is burned, in basis points.
pub const BURN_BPS: u64 = 8000;

/// Share of each crank's token proceeds that is escrowed, in basis points.
pub const LOCK_BPS: u64 = 2000;

/// Denominator of the basis-point shares.
pub const BPS_DENOMINATOR: u64 = 10000;

} // verus!
