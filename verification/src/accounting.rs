//! Ledger-level accounting of the reward pool across whole histories: the
//! pool's balance after any interleaving of accruals (winning spins) and
//! payouts (distribution calls) is exactly its start plus everything
//! accrued minus everything paid, and it never goes negative as long as no
//! payout exceeds the pool it draws from — which the distribution handler
//! guarantees by paying at most `floor(pool / holderCount)`.

use vstd::prelude::*;

verus! {

/// One movement of the reward pool.
pub enum PoolEvent {
    /// A winning spin accrued this amount into the pool.
    Accrued { amount: u64 },
    /// A distribution call paid this share out of the pool.
    Paid { amount: u64 },
}

/// Pool balance after replaying `events` over a starting balance.
pub open spec fn pool_after(init: u64, events: Seq<PoolEvent>) -> int
    decreases events.len(),
{
    if events.len() == 0 {
        init as int
    } else {
        let before = pool_after(init, events.drop_last());
        match events.last() {
            PoolEvent::Accrued { amount } => before + amount,
            PoolEvent::Paid { amount } => before - amount,
        }
    }
}

/// Sum of all accrued amounts in `events`.
pub open spec fn total_accrued(events: Seq<PoolEvent>) -> int
    decreases events.len(),
{
    if events.len() == 0 {
        0
    } else {
        total_accrued(events.drop_last()) + (match events.last() {
            PoolEvent::Accrued { amount } => amount as int,
            PoolEvent::Paid { amount } => 0,
        })
    }
}

/// Sum of all paid-out shares in `events`.
pub open spec fn total_paid(events: Seq<PoolEvent>) -> int
    decreases events.len(),
{
    if events.len() == 0 {
        0
    } else {
        total_paid(events.drop_last()) + (match events.last() {
            PoolEvent::Accrued { amount } => 0,
            PoolEvent::Paid { amount } => amount as int,
        })
    }
}

/// Whether every payout in `events` draws no more than the pool holds at
/// that point.
pub open spec fn payouts_covered(init: u64, events: Seq<PoolEvent>) -> bool
    decreases events.len(),
{
    if events.len() == 0 {
        true
    } else {
        payouts_covered(init, events.drop_last()) && (match events.last() {
            PoolEvent::Accrued { amount } => true,
            PoolEvent::Paid { amount } => amount <= pool_after(init, events.drop_last()),
        })
    }
}

/// How one more event moves the replayed pool: an accrual adds its amount,
/// a payout subtracts its share, and a history stays covered exactly when
/// the new payout draws no more than the pool it found. One winning spin
/// and one distribution call change the pool in precisely these two ways.
pub proof fn lemma_pool_event_step(init: u64, events: Seq<PoolEvent>, e: PoolEvent)
    ensures
        pool_after(init, events.push(e)) == (match e {
            PoolEvent::Accrued { amount } => pool_after(init, events) + amount,
            PoolEvent::Paid { amount } => pool_after(init, events) - amount,
        }),
        payouts_covered(init, events.push(e)) == (payouts_covered(init, events) && (match e {
            PoolEvent::Accrued { amount } => true,
            PoolEvent::Paid { amount } => amount <= pool_after(init, events),
        })),
{
    assert(events.push(e).drop_last() =~= events);
    assert(events.push(e).last() == e);
}

/// Reward-pool accounting over any history: after any sequence of accruals
/// and payouts the pool holds exactly its starting balance plus the sum of
/// all accruals minus the sum of all paid shares, and it is never negative
/// when every payout drew no more than the pool held — the regime the spin
/// and distribution handlers maintain.
pub proof fn lemma_pool_accounting(init: u64, events: Seq<PoolEvent>)
    ensures
        pool_after(init, events) == init + total_accrued(events) - total_paid(events),
        payouts_covered(init, events) ==> pool_after(init, events) >= 0,
    decreases events.len(),
{
    if events.len() > 0 {
        lemma_pool_accounting(init, events.drop_last());
    }
}

} // verus!
