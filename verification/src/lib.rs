//! Economic core of an on-ledger betting and holder-reward system.
//!
//! Players stake a fixed amount per spin; a deterministic generator resolves
//! a payout tier; a fixed percentage of every win accrues to a shared reward
//! pool that registered holders periodically split pro-rata. All balance
//! accounting is over plain integer values; the surrounding ledger substrate
//! (account storage, value transfer, clocks, signature checks) stays outside
//! this crate and hands these functions plain values.

use vstd::prelude::*;

pub mod accounting;
pub mod distribution;
pub mod errors;
pub mod generator;
pub mod player;
pub mod registry;
pub mod tier;
pub mod treasury;

verus! {

/// Fixed stake charged for every spin.
pub const BET_AMOUNT: u64 = 100000000;

/// Percentage of every win diverted into the holder reward pool.
pub const HOLDER_REWARD_PERCENTAGE: u64 = 10;

/// Minimum spendable balance a candidate must show at registration time.
pub const MIN_HOLDER_BALANCE: u64 = 1_000_000_000;

/// Seconds that must pass after a full pool drain before the next payout.
pub const PAYOUT_INTERVAL: i64 = 86400;

/// Creation deposit a player account must always retain; doubles as the
/// treasury generator's fixed non-zero initial state.
pub const RESERVED_MINIMUM: u64 = 967440;

/// Capacity bound of the holder registry.
pub const MAX_HOLDERS: usize = 100;

} // verus!
