//! Payout tiers and the fixed thresholds that resolve them from a decider
//! value, together with the split of a payout into the holder-pool cut and
//! the winner's share.

use vstd::prelude::*;
use crate::BET_AMOUNT;
use crate::HOLDER_REWARD_PERCENTAGE;

verus! {

/// Classification of a single spin's outcome.
#[derive(Clone, Copy, Debug, PartialEq, Eq, Structural)]
pub enum Tier {
    NoWin,
    Small,
    Big,
    Mega,
}

/// Tier resolved from a decider value (the generator state reduced mod 20).
pub open spec fn tier_of(decider: u64) -> Tier {
    if decider > 17 {
        Tier::Mega
    } else if decider > 14 {
        Tier::Big
    } else if decider > 8 {
        Tier::Small
    } else {
        Tier::NoWin
    }
}

/// Gross payout owed for a tier, as a fixed multiple of the stake.
pub open spec fn payout_of(tier: Tier) -> u64 {
    match tier {
        Tier::NoWin => 0,
        Tier::Small => BET_AMOUNT / 2,
        Tier::Big => BET_AMOUNT,
        Tier::Mega => (2 * BET_AMOUNT) as u64,
    }
}

/// Part of a payout diverted into the holder reward pool:
/// `floor(payout * HOLDER_REWARD_PERCENTAGE / 100)`. Every payout is a
/// multiple of 100, so the division is exact and loses nothing to rounding.
pub open spec fn holder_cut(payout: u64) -> u64 {
    ((payout * HOLDER_REWARD_PERCENTAGE) / 100) as u64
}

/// Part of a payout the winner keeps after the holder-pool cut.
pub open spec fn winner_share(payout: u64) -> u64 {
    (payout - holder_cut(payout)) as u64
}

/// Resolves the payout tier from a decider value.
pub fn classify_tier(decider: u64) -> (t: Tier)
    ensures
        t == tier_of(decider),
{
    if decider > 17 {
        Tier::Mega
    } else if decider > 14 {
        Tier::Big
    } else if decider > 8 {
        Tier::Small
    } else {
        Tier::NoWin
    }
}

/// Gross payout owed for a tier.
pub fn payout_for(tier: Tier) -> (p: u64)
    ensures
        p == payout_of(tier),
{
    match tier {
        Tier::NoWin => 0,
        Tier::Small => BET_AMOUNT / 2,
        Tier::Big => BET_AMOUNT,
        Tier::Mega => 2 * BET_AMOUNT,
    }
}

/// Arithmetic facts about the fixed payouts: each fits comfortably in 64
/// bits, the pool cut never exceeds the payout, and the ten-percent cut is
/// exact (no remainder is lost to integer division).
pub proof fn lemma_payout_facts(tier: Tier)
    ensures
        payout_of(tier) <= 2 * BET_AMOUNT,
        payout_of(tier) * HOLDER_REWARD_PERCENTAGE <= u64::MAX,
        holder_cut(payout_of(tier)) <= payout_of(tier),
        (payout_of(tier) * HOLDER_REWARD_PERCENTAGE) % 100 == 0,
        winner_share(payout_of(tier)) == payout_of(tier) - holder_cut(payout_of(tier)),
{
}

/// The tier thresholds are exact: deciders 0 through 8 pay nothing, 9
/// through 14 pay half the stake, 15 through 17 pay the stake, and 18 or 19
/// pay twice the stake.
pub proof fn lemma_tier_thresholds(d: u64)
    requires
        d < 20,
    ensures
        d <= 8 ==> tier_of(d) == Tier::NoWin && payout_of(tier_of(d)) == 0,
        9 <= d <= 14 ==> tier_of(d) == Tier::Small && payout_of(tier_of(d)) == BET_AMOUNT / 2,
        15 <= d <= 17 ==> tier_of(d) == Tier::Big && payout_of(tier_of(d)) == BET_AMOUNT,
        18 <= d ==> tier_of(d) == Tier::Mega && payout_of(tier_of(d)) == 2 * BET_AMOUNT,
{
}

} // verus!
