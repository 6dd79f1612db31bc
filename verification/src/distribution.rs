//! The self-service reward distribution: each registered holder pulls its
//! own equal share of the current pool, one call per holder. The divisor is
//! the holder count at call time, and the payout clock only resets when the
//! pool drains to exactly zero, so late callers within a cycle may find the
//! pool already empty, and an integer-division remainder stays in the pool.

use vstd::prelude::*;
use vstd::arithmetic::div_mod::lemma_div_nonincreasing;
use crate::PAYOUT_INTERVAL;
use crate::errors::ErrorCode;
use crate::registry::HolderRegistry;
use crate::registry::holders_contain;
use crate::treasury::Vault;

verus! {

/// Pays `caller` its equal share of the current reward pool.
///
/// All four gates are checked, in this order, each with its own failure
/// signal and no state changed: the payout interval since the last full
/// drain must have elapsed, the pool must be non-empty, the registry must
/// be non-empty, and the caller must be a registered holder. On success the
/// share is `floor(pool / holderCount)`; it moves from the treasury's held
/// value into the caller's player account, the pool shrinks by exactly the
/// share, and the payout clock resets only if the pool reached zero.
///
/// The preconditions carry the treasury's standing invariant that the pool
/// is a sub-ledger of its held value, and rule out the arithmetic overflows
/// that the modelled system treats as a fatal abort of the whole request.
pub fn distribute_holder_rewards(
    vault: &mut Vault,
    registry: &HolderRegistry,
    caller: u64,
    now: i64,
    vault_balance: &mut u64,
    user_vault_balance: &mut u64,
) -> (r: Result<u64, ErrorCode>)
    requires
        old(vault).last_payout_time + PAYOUT_INTERVAL <= i64::MAX,
        *old(vault_balance) >= old(vault).reward_pool_balance,
        *old(user_vault_balance) + old(vault).reward_pool_balance <= u64::MAX,
    ensures
        match r {
            Ok(share) => {
                &&& now >= old(vault).last_payout_time + PAYOUT_INTERVAL
                &&& old(vault).reward_pool_balance > 0
                &&& registry.holders@.len() > 0
                &&& registry.holders@.contains(caller)
                &&& share == old(vault).reward_pool_balance / (registry.holders@.len() as u64)
                &&& share <= old(vault).reward_pool_balance
                &&& final(vault).reward_pool_balance == old(vault).reward_pool_balance - share
                &&& *final(vault_balance) == *old(vault_balance) - share
                &&& *final(user_vault_balance) == *old(user_vault_balance) + share
                &&& final(vault).spin_count == old(vault).spin_count
                &&& final(vault).generator_state == old(vault).generator_state
                &&& final(vault).last_payout_time == (if final(vault).reward_pool_balance == 0 {
                    now
                } else {
                    old(vault).last_payout_time
                })
            },
            Err(e) => {
                &&& *final(vault) == *old(vault)
                &&& *final(vault_balance) == *old(vault_balance)
                &&& *final(user_vault_balance) == *old(user_vault_balance)
                &&& ({
                    ||| (e == ErrorCode::PayoutTooEarly && now < old(vault).last_payout_time
                        + PAYOUT_INTERVAL)
                    ||| (e == ErrorCode::NoRewardsToDistribute && now >= old(
                        vault,
                    ).last_payout_time + PAYOUT_INTERVAL && old(vault).reward_pool_balance == 0)
                    ||| (e == ErrorCode::NoHoldersRegistered && now >= old(vault).last_payout_time
                        + PAYOUT_INTERVAL && old(vault).reward_pool_balance > 0
                        && registry.holders@.len() == 0)
                    ||| (e == ErrorCode::NotRegisteredHolder && now >= old(vault).last_payout_time
                        + PAYOUT_INTERVAL && old(vault).reward_pool_balance > 0
                        && registry.holders@.len() > 0 && !registry.holders@.contains(caller))
                })
            },
        },
{
    if now < vault.last_payout_time + PAYOUT_INTERVAL {
        return Err(ErrorCode::PayoutTooEarly);
    }
    if vault.reward_pool_balance == 0 {
        return Err(ErrorCode::NoRewardsToDistribute);
    }
    let holder_count = registry.holders.len();
    if holder_count == 0 {
        return Err(ErrorCode::NoHoldersRegistered);
    }
    if !holders_contain(&registry.holders, caller) {
        return Err(ErrorCode::NotRegisteredHolder);
    }

    let share = vault.reward_pool_balance / (holder_count as u64);
    proof {
        lemma_div_nonincreasing(
            old(vault).reward_pool_balance as int,
            registry.holders@.len() as int,
        );
    }
    *vault_balance = *vault_balance - share;
    *user_vault_balance = *user_vault_balance + share;
    vault.reward_pool_balance = vault.reward_pool_balance - share;
    if vault.reward_pool_balance == 0 {
        vault.last_payout_time = now;
    }
    Ok(share)
}

} // verus!
