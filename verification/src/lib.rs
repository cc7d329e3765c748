//! Measures the throughput cost of cache-line contention when many threads
//! set bits in a large shared bitmap. The verified core holds the index
//! source (constant or xorshift-randomized), the bitmap with its two bit-set
//! strategies, and the bounded worker loop with its throughput arithmetic;
//! thread spawning, timing and console output live outside the library.
use vstd::prelude::*;

pub mod bitmap;
pub mod index_source;
pub mod rng;
pub mod worker;

verus! {

/// Size of the bitmap in bytes in the default benchmark configuration.
pub const BITMAP_SIZE: usize = 512 * 1024 * 1024;

} // verus!
