//! The treasury's deterministic pseudo-random generator: an xorshift64*
//! step over the stored 64-bit state, and the decider each spin derives
//! from the freshly advanced state.
//!
//! The generator is a pure function of the on-record state and mixes in no
//! external entropy, so every outcome is predictable to anyone who can read
//! the prior state before their request is ordered. That weakness is part
//! of the design being modelled here, not something this crate repairs.

use vstd::prelude::*;

verus! {

/// Multiplier of the xorshift64* finalising step.
pub const MIX_MULTIPLIER: u64 = 0x2545F4914F6CDD1D;

/// One xorshift64* step: three xor-shifts, then a wrapping multiply.
pub open spec fn mix64(s: u64) -> u64 {
    let a = s ^ (s >> 12u64);
    let b = a ^ (a << 25u64);
    let c = b ^ (b >> 27u64);
    c.wrapping_mul(MIX_MULTIPLIER)
}

/// Decider a spin draws when the generator advances from state `s`.
pub open spec fn spin_decider(s: u64) -> u64 {
    mix64(s) % 20
}

/// Generator state after `n` spins starting from state `s`.
pub open spec fn state_after(s: u64, n: nat) -> u64
    decreases n,
{
    if n == 0 {
        s
    } else {
        mix64(state_after(s, (n - 1) as nat))
    }
}

/// Deciders drawn by the first `n` spins starting from state `s`.
pub open spec fn decider_seq(s: u64, n: nat) -> Seq<u64> {
    Seq::new(n, |i: int| spin_decider(state_after(s, i as nat)))
}

/// Advances the generator by one xorshift64* step.
pub fn advance_generator(s: u64) -> (r: u64)
    ensures
        r == mix64(s),
{
    let a = s ^ (s >> 12);
    let b = a ^ (a << 25);
    let c = b ^ (b >> 27);
    c.wrapping_mul(MIX_MULTIPLIER)
}

/// The decider sequence grows spin by spin: the deciders of the first
/// `n + 1` spins are those of the first `n` spins followed by the decider
/// the next spin draws from the state the first `n` spins reached. With
/// the generator a pure function of the stored state, the whole sequence
/// is therefore fixed by the initial state alone and is bit-exactly
/// reproducible.
pub proof fn lemma_decider_seq_step(s: u64, n: nat)
    ensures
        decider_seq(s, n + 1) =~= decider_seq(s, n).push(spin_decider(state_after(s, n))),
{
}

} // verus!
