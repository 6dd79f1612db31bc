//! The per-participant player account: an accumulator of unclaimed winnings
//! with a settlement handler that pulls everything above the reserved
//! creation deposit out to the player's own spendable balance.

use vstd::prelude::*;
use crate::RESERVED_MINIMUM;

verus! {

/// The per-participant account record.
#[derive(Clone, Copy, Debug, PartialEq, Eq, Structural)]
pub struct UserVault {
    /// Cumulative amount ever withdrawn; monotonically increasing
    /// bookkeeping that gates nothing.
    pub claimed_total: u64,
}

/// The unclaimed balance of a player account holding `held` value: whatever
/// stands above the reserved creation deposit.
pub open spec fn claimable_of(held: u64) -> u64 {
    (held - RESERVED_MINIMUM) as u64
}

/// Creates a player account with nothing withdrawn yet.
pub fn create_user_vault() -> (u: UserVault)
    ensures
        u.claimed_total == 0,
{
    UserVault { claimed_total: 0 }
}

/// Withdraws all of a player account's unclaimed balance: the account's
/// held value drops back to exactly the reserved minimum and the claimable
/// difference lands on the caller's spendable balance, as one atomic step.
/// A claim of an account holding exactly the reserved minimum moves nothing
/// and is not an error.
///
/// The held value never stands below the reserved minimum while the
/// system's invariants hold; the modelled system asserts that rather than
/// recovering from it, so it is a precondition here, as are the overflow
/// bounds whose violation aborts the whole request.
pub fn claim_winnings(
    user_vault: &mut UserVault,
    user_vault_balance: &mut u64,
    caller_balance: &mut u64,
) -> (claimed: u64)
    requires
        *old(user_vault_balance) >= RESERVED_MINIMUM,
        *old(caller_balance) + claimable_of(*old(user_vault_balance)) <= u64::MAX,
        old(user_vault).claimed_total + claimable_of(*old(user_vault_balance)) <= u64::MAX,
    ensures
        claimed == claimable_of(*old(user_vault_balance)),
        *final(user_vault_balance) == RESERVED_MINIMUM,
        *final(caller_balance) == *old(caller_balance) + claimed,
        final(user_vault).claimed_total == old(user_vault).claimed_total + claimed,
{
    let claimable = *user_vault_balance - RESERVED_MINIMUM;
    *user_vault_balance = RESERVED_MINIMUM;
    *caller_balance = *caller_balance + claimable;
    user_vault.claimed_total = user_vault.claimed_total + claimable;
    claimable
}

} // verus!
