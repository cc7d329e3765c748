//! The xorshift pseudo-random generator used to spread bit indices across
//! the bitmap. It is a fast, non-cryptographic recurrence on a 64-bit word:
//! three shift-and-XOR steps (left 13, right 17, left 43).
use vstd::prelude::*;

verus! {

/// One step of the xorshift recurrence: each shifted copy of the
/// accumulator is XORed back into it. Left shifts truncate to 64 bits.
pub open spec fn xorshift_spec(prev: u64) -> u64 {
    let a = prev ^ (prev << 13);
    let b = a ^ (a >> 17);
    b ^ (b << 43)
}

/// Advance the generator by one step.
pub fn xorshift(prev: u64) -> (next: u64)
    ensures
        next == xorshift_spec(prev),
{
    let mut next = prev;
    next = next ^ (next << 13);
    next = next ^ (next >> 17);
    next = next ^ (next << 43);
    next
}

} // verus!
