//! The holder registry — the bounded, insertion-ordered, duplicate-free
//! list of identities eligible for reward-pool splits — and the admission
//! handler.
//!
//! Identities are the plain 64-bit keys the ledger substrate derives for
//! its accounts. Eligibility is checked once, at admission time, against
//! the candidate's spendable balance; it is never re-verified later. That
//! stickiness is part of the economic policy being modelled, not an
//! oversight this crate corrects.

use vstd::prelude::*;
use vstd::seq_lib::group_to_multiset_ensures;
use crate::MAX_HOLDERS;
use crate::MIN_HOLDER_BALANCE;
use crate::errors::ErrorCode;

verus! {

/// The singleton registry record.
#[derive(Clone, Debug)]
pub struct HolderRegistry {
    /// Admitted identities, insertion order preserved, no duplicates.
    pub holders: Vec<u64>,
    /// Time of the last actual admission.
    pub last_updated: i64,
}

impl HolderRegistry {
    /// Well-formedness: no identity twice, and the capacity bound holds.
    pub open spec fn wf(self) -> bool {
        self.holders@.no_duplicates() && self.holders@.len() <= MAX_HOLDERS
    }
}

/// Membership list after an admission attempt by a sufficiently funded
/// `candidate`: unchanged when already present, appended otherwise.
pub open spec fn admitted_holders(holders: Seq<u64>, candidate: u64) -> Seq<u64> {
    if holders.contains(candidate) {
        holders
    } else {
        holders.push(candidate)
    }
}

/// Whether an admission attempt by a sufficiently funded `candidate` is an
/// actual insertion; only an actual insertion touches `last_updated`.
pub open spec fn admission_inserts(holders: Seq<u64>, candidate: u64) -> bool {
    !holders.contains(candidate)
}

/// Creates the holder registry: empty, stamped with `now`.
pub fn init_holder_registry(now: i64) -> (r: HolderRegistry)
    ensures
        r.holders@ =~= Seq::<u64>::empty(),
        r.last_updated == now,
        r.wf(),
{
    HolderRegistry { holders: Vec::new(), last_updated: now }
}

/// Whether identity `x` stands in `v`.
pub fn holders_contain(v: &Vec<u64>, x: u64) -> (b: bool)
    ensures
        b == v@.contains(x),
{
    let mut i: usize = 0;
    while i < v.len()
        invariant
            i <= v@.len(),
            forall|k: int| 0 <= k < i ==> v@[k] != x,
        decreases v@.len() - i,
    {
        if v[i] == x {
            assert(v@[i as int] == x);
            return true;
        }
        i = i + 1;
    }
    false
}

/// Admits `candidate` into the registry if its spendable balance meets the
/// holder minimum. Admission is idempotent: a candidate already present is
/// left alone and `last_updated` is not touched; only an actual insertion
/// stamps `last_updated` with `now`. An underfunded candidate is refused
/// with the registry unchanged.
///
/// The capacity precondition reflects the registry's fixed backing store:
/// the modelled system has no room for an insertion past the bound and
/// aborts the whole request there.
pub fn register_as_holder(
    registry: &mut HolderRegistry,
    candidate: u64,
    candidate_balance: u64,
    now: i64,
) -> (r: Result<(), ErrorCode>)
    requires
        old(registry).holders@.len() < MAX_HOLDERS || old(registry).holders@.contains(candidate),
    ensures
        match r {
            Ok(()) => {
                &&& candidate_balance >= MIN_HOLDER_BALANCE
                &&& final(registry).holders@ == admitted_holders(
                    old(registry).holders@,
                    candidate,
                )
                &&& final(registry).last_updated == (if admission_inserts(
                    old(registry).holders@,
                    candidate,
                ) {
                    now
                } else {
                    old(registry).last_updated
                })
                &&& final(registry).holders@.contains(candidate)
                &&& old(registry).wf() ==> final(registry).wf()
            },
            Err(e) => {
                &&& e == ErrorCode::InsufficientHolderBalance
                &&& candidate_balance < MIN_HOLDER_BALANCE
                &&& final(registry).holders@ == old(registry).holders@
                &&& final(registry).last_updated == old(registry).last_updated
            },
        },
{
    if candidate_balance < MIN_HOLDER_BALANCE {
        return Err(ErrorCode::InsufficientHolderBalance);
    }
    if !holders_contain(&registry.holders, candidate) {
        registry.holders.push(candidate);
        registry.last_updated = now;
        proof {
            let pre = old(registry).holders@;
            assert(registry.holders@ == pre.push(candidate));
            assert(registry.holders@[pre.len() as int] == candidate);
            assert(registry.holders@.contains(candidate));
            if pre.no_duplicates() {
                assert forall|i: int, j: int|
                    0 <= i < registry.holders@.len() && 0 <= j < registry.holders@.len() && i
                        != j implies registry.holders@[i] != registry.holders@[j] by {
                    if i < pre.len() && j < pre.len() {
                    } else if j == pre.len() {
                        assert(pre[i] != candidate);
                    } else {
                        assert(pre[j] != candidate);
                    }
                }
            }
        }
    }
    Ok(())
}

/// Admission is idempotent. A second attempt by the same identity finds it
/// already present, so the list after two attempts equals the list after
/// one, the second attempt is no insertion (and so would not touch
/// `last_updated`), and a duplicate-free list still carries the identity
/// exactly once.
pub proof fn lemma_register_idempotent(holders: Seq<u64>, candidate: u64)
    requires
        holders.no_duplicates(),
    ensures
        ({
            let once = admitted_holders(holders, candidate);
            &&& admitted_holders(once, candidate) == once
            &&& !admission_inserts(once, candidate)
            &&& once.no_duplicates()
            &&& once.to_multiset().count(candidate) == 1
        }),
{
    broadcast use group_to_multiset_ensures;

    let once = admitted_holders(holders, candidate);
    if !holders.contains(candidate) {
        assert(once == holders.push(candidate));
        assert(once[holders.len() as int] == candidate);
        assert(once.contains(candidate));
        assert forall|i: int, j: int|
            0 <= i < once.len() && 0 <= j < once.len() && i != j implies once[i] != once[j] by {
            if i < holders.len() && j < holders.len() {
            } else if j == holders.len() {
                assert(holders[i] != candidate);
            } else {
                assert(holders[j] != candidate);
            }
        }
    }
    assert(once.contains(candidate));
    once.lemma_multiset_has_no_duplicates();
}

} // verus!
