//! Failure signals of the request handlers. Every failure is all-or-nothing:
//! a handler that returns one of these has changed no state.

use vstd::prelude::*;

verus! {

/// Distinguishable reasons a request is refused.
#[derive(Clone, Copy, Debug, PartialEq, Eq, Structural)]
pub enum ErrorCode {
    /// The caller cannot cover the fixed stake of a spin.
    InsufficientStakeFunds,
    /// The candidate's spendable balance is below the holder minimum.
    InsufficientHolderBalance,
    /// The reward pool is empty; there is nothing to distribute.
    NoRewardsToDistribute,
    /// The holder registry is empty.
    NoHoldersRegistered,
    /// The payout interval since the last full drain has not yet elapsed.
    PayoutTooEarly,
    /// The caller is not a member of the holder registry.
    NotRegisteredHolder,
}

impl ErrorCode {
    /// Short stable name of the failure, for callers that report it.
    pub fn describe(&self) -> &'static str {
        match self {
            ErrorCode::InsufficientStakeFunds => "insufficient balance to cover the stake",
            ErrorCode::InsufficientHolderBalance => "insufficient balance to register as holder",
            ErrorCode::NoRewardsToDistribute => "no rewards available to distribute",
            ErrorCode::NoHoldersRegistered => "no holders registered",
            ErrorCode::PayoutTooEarly => "not enough time has passed since last payout",
            ErrorCode::NotRegisteredHolder => "signer is not a registered holder",
        }
    }
}

} // verus!
