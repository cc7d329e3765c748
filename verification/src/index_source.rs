//! The index source: produces, on demand, the bit index the worker loop
//! operates on. Constant mode always yields one fixed index (maximal
//! contention); random mode draws the next xorshift value and reduces it
//! modulo the bit range (minimal contention).
use vstd::prelude::*;

use crate::rng::xorshift;
use crate::rng::xorshift_spec;

verus! {

/// The fixed index used by constant mode, reduced modulo the bit range.
pub const CONSTANT_INDEX: u64 = 123123;

/// Which way the index source picks the next bit index.
#[derive(Clone, Copy, PartialEq, Eq, Structural, Debug)]
pub enum IndexMode {
    /// Every call returns the same index: worst-case contention.
    Constant,
    /// Every call advances the xorshift state: indices spread over the range.
    Random,
}

/// The pair (bit index, new generator state) that one draw from the index
/// source yields. Constant mode leaves the state alone; random mode
/// advances it and reduces the new state modulo `total_bits`.
pub open spec fn next_index_spec(mode: IndexMode, state: u64, total_bits: u64) -> (u64, u64)
    recommends
        total_bits > 0,
{
    match mode {
        IndexMode::Constant => ((CONSTANT_INDEX % total_bits) as u64, state),
        IndexMode::Random => {
            let next = xorshift_spec(state);
            ((next % total_bits) as u64, next)
        },
    }
}

/// Draw the next bit index. Returns the index and the generator state to
/// carry into the next draw; the index is always below `total_bits`.
pub fn next_index(mode: IndexMode, state: u64, total_bits: u64) -> (r: (u64, u64))
    requires
        total_bits > 0,
    ensures
        r == next_index_spec(mode, state, total_bits),
        r.0 < total_bits,
{
    match mode {
        IndexMode::Constant => (CONSTANT_INDEX % total_bits, state),
        IndexMode::Random => {
            let next = xorshift(state);
            (next % total_bits, next)
        },
    }
}

/// The index source is deterministic: drawing from equal states over equal
/// ranges yields the same index and the same next state. There is no
/// hidden mutation; the whole outcome is a function of the arguments.
pub proof fn lemma_next_index_deterministic(
    mode: IndexMode,
    state1: u64,
    state2: u64,
    total_bits1: u64,
    total_bits2: u64,
)
    requires
        state1 == state2,
        total_bits1 == total_bits2,
    ensures
        next_index_spec(mode, state1, total_bits1) == next_index_spec(mode, state2, total_bits2),
{
}

/// Every index the random mode produces lies in `0 .. total_bits`.
pub proof fn lemma_random_index_in_range(state: u64, total_bits: u64)
    requires
        total_bits > 0,
    ensures
        next_index_spec(IndexMode::Random, state, total_bits).0 < total_bits,
{
}

/// Constant mode returns the same index whatever the state, and that index
/// lies below `total_bits`.
pub proof fn lemma_constant_index_fixed(state1: u64, state2: u64, total_bits: u64)
    requires
        total_bits > 0,
    ensures
        next_index_spec(IndexMode::Constant, state1, total_bits).0 == next_index_spec(
            IndexMode::Constant,
            state2,
            total_bits,
        ).0,
        next_index_spec(IndexMode::Constant, state1, total_bits).0 < total_bits,
{
}

} // verus!
