//! The treasury record — house bankroll bookkeeping, the generator state,
//! and the holder reward pool — with its creation and the spin handler.
//!
//! A spin handler call works over four plain values next to the record
//! itself: the treasury's held value, the caller's player-account held
//! value, and the caller's own spendable balance. The ledger substrate
//! owns those balances; it hands them in and applies the new values
//! atomically with the record update, all-or-nothing.

use vstd::prelude::*;
use crate::BET_AMOUNT;
use crate::HOLDER_REWARD_PERCENTAGE;
use crate::RESERVED_MINIMUM;
use crate::errors::ErrorCode;
use crate::generator::advance_generator;
use crate::generator::mix64;
use crate::generator::spin_decider;
use crate::tier::Tier;
use crate::tier::classify_tier;
use crate::tier::holder_cut;
use crate::tier::lemma_payout_facts;
use crate::tier::payout_for;
use crate::tier::payout_of;
use crate::tier::tier_of;
use crate::tier::winner_share;

verus! {

/// The singleton treasury record.
#[derive(Clone, Copy, Debug, PartialEq, Eq, Structural)]
pub struct Vault {
    /// Number of spins played; wraps at overflow by design.
    pub spin_count: u16,
    /// Mutable state of the pseudo-random generator.
    pub generator_state: u64,
    /// Value owed to holders, a sub-ledger nested inside the treasury's
    /// held value; never more than that held value.
    pub reward_pool_balance: u64,
    /// Set at creation and each time the reward pool drains to zero.
    pub last_payout_time: i64,
}

impl Vault {
    /// Decider the next spin will draw.
    pub open spec fn next_decider(self) -> u64 {
        spin_decider(self.generator_state)
    }

    /// Tier the next spin will resolve.
    pub open spec fn next_tier(self) -> Tier {
        tier_of(self.next_decider())
    }

    /// Gross payout the next spin will owe.
    pub open spec fn next_payout(self) -> u64 {
        payout_of(self.next_tier())
    }

    /// Pool cut the next spin will accrue.
    pub open spec fn next_cut(self) -> u64 {
        holder_cut(self.next_payout())
    }

    /// Winnings the next spin will move to the caller's player account.
    pub open spec fn next_winnings(self) -> u64 {
        winner_share(self.next_payout())
    }
}

/// Bounds on what the next spin can move, however the generator lands:
/// enough for a caller to discharge `spin`'s overflow preconditions without
/// predicting the outcome.
pub proof fn lemma_spin_bounds(v: Vault)
    ensures
        v.next_payout() <= 2 * BET_AMOUNT,
        v.next_cut() <= v.next_payout(),
        v.next_winnings() <= v.next_payout(),
{
    lemma_payout_facts(v.next_tier());
}

/// Resolved outcome of one spin, reported back for observability.
#[derive(Clone, Copy, Debug, PartialEq, Eq, Structural)]
pub struct SpinOutcome {
    /// The generator state reduced mod 20.
    pub decider: u64,
    /// Tier the decider resolved to.
    pub tier: Tier,
    /// Gross payout of the tier.
    pub payout: u64,
    /// Part of the payout accrued to the holder reward pool.
    pub holder_reward: u64,
    /// Part of the payout moved to the caller's player account.
    pub user_winnings: u64,
}

/// Creates the treasury record: no spins yet, the generator at its fixed
/// non-zero initial state, an empty reward pool, and the payout clock
/// started at `now`.
pub fn init(now: i64) -> (v: Vault)
    ensures
        v.spin_count == 0,
        v.generator_state == RESERVED_MINIMUM,
        v.reward_pool_balance == 0,
        v.last_payout_time == now,
{
    Vault {
        spin_count: 0,
        generator_state: RESERVED_MINIMUM,
        reward_pool_balance: 0,
        last_payout_time: now,
    }
}

/// Plays one spin: charges the fixed stake, advances the generator,
/// resolves the tier, accrues the pool cut of any win, and credits the
/// winner's share to the caller's player account.
///
/// The stake is charged whatever the outcome; only a caller who cannot
/// cover it is refused, with no state changed. The preconditions rule out
/// the arithmetic overflows that the modelled system treats as a fatal
/// abort of the whole request.
pub fn spin(
    vault: &mut Vault,
    vault_balance: &mut u64,
    user_vault_balance: &mut u64,
    caller_balance: &mut u64,
) -> (r: Result<SpinOutcome, ErrorCode>)
    requires
        old(vault).reward_pool_balance + old(vault).next_cut() <= u64::MAX,
        *old(vault_balance) + BET_AMOUNT <= u64::MAX,
        *old(vault_balance) + BET_AMOUNT >= old(vault).next_winnings(),
        *old(user_vault_balance) + old(vault).next_winnings() <= u64::MAX,
    ensures
        match r {
            Ok(out) => {
                &&& *old(caller_balance) >= BET_AMOUNT
                &&& out.decider == old(vault).next_decider()
                &&& out.tier == old(vault).next_tier()
                &&& out.payout == old(vault).next_payout()
                &&& out.holder_reward == old(vault).next_cut()
                &&& out.user_winnings == old(vault).next_winnings()
                &&& final(vault).spin_count == old(vault).spin_count.wrapping_add(1)
                &&& final(vault).generator_state == mix64(old(vault).generator_state)
                &&& final(vault).reward_pool_balance == old(vault).reward_pool_balance
                    + out.holder_reward
                &&& final(vault).last_payout_time == old(vault).last_payout_time
                &&& *final(caller_balance) == *old(caller_balance) - BET_AMOUNT
                &&& *final(vault_balance) == *old(vault_balance) + BET_AMOUNT
                    - out.user_winnings
                &&& *final(user_vault_balance) == *old(user_vault_balance) + out.user_winnings
            },
            Err(e) => {
                &&& e == ErrorCode::InsufficientStakeFunds
                &&& *old(caller_balance) < BET_AMOUNT
                &&& *final(vault) == *old(vault)
                &&& *final(vault_balance) == *old(vault_balance)
                &&& *final(user_vault_balance) == *old(user_vault_balance)
                &&& *final(caller_balance) == *old(caller_balance)
            },
        },
{
    if *caller_balance < BET_AMOUNT {
        return Err(ErrorCode::InsufficientStakeFunds);
    }
    vault.spin_count = vault.spin_count.wrapping_add(1);
    let state = advance_generator(vault.generator_state);
    vault.generator_state = state;

    let decider = state % 20;
    let tier = classify_tier(decider);
    let payout = payout_for(tier);
    proof {
        lemma_spin_bounds(*old(vault));
    }
    let holder_reward = payout * HOLDER_REWARD_PERCENTAGE / 100;
    let user_winnings = payout - holder_reward;

    *caller_balance = *caller_balance - BET_AMOUNT;
    *vault_balance = *vault_balance + BET_AMOUNT;

    vault.reward_pool_balance = vault.reward_pool_balance + holder_reward;
    *vault_balance = *vault_balance - user_winnings;
    *user_vault_balance = *user_vault_balance + user_winnings;

    Ok(SpinOutcome { decider, tier, payout, holder_reward, user_winnings })
}

} // verus!
