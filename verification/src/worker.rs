//! The contended worker loop, re-expressed as a bounded run so it can be
//! exercised and reasoned about: each iteration draws a bit index from the
//! index source and applies the selected bit-set strategy to the bitmap.
//! The unbounded loop, its timing and its console reporting are thin glue
//! around this and live outside the library; the throughput arithmetic the
//! reporter uses is here.
use vstd::prelude::*;

use crate::bitmap::BitMap;
use crate::bitmap::set_bit_manual_spec;
use crate::bitmap::set_bit_spec;
use crate::index_source::IndexMode;
use crate::index_source::next_index;
use crate::index_source::next_index_spec;

verus! {

/// Which bit-set strategy the worker applies each iteration.
#[derive(Clone, Copy, PartialEq, Eq, Structural, Debug)]
pub enum Strategy {
    /// One hardware read-modify-write against memory; the store always
    /// happens. Safe under concurrent access.
    Atomic,
    /// Load the containing byte, test and set the bit in a register, store
    /// back only when the bit was clear. Racy under concurrent access.
    Manual,
}

/// The buffer one application of `strategy` at `idx` leaves behind. Both
/// strategies set the addressed bit and nothing else; single-threaded they
/// coincide (`lemma_strategies_agree`), but each is specified as it acts.
pub open spec fn apply_strategy_spec(strategy: Strategy, bytes: Seq<u8>, idx: int) -> Seq<u8>
    recommends
        0 <= idx < bytes.len() * 8,
{
    match strategy {
        Strategy::Atomic => set_bit_spec(bytes, idx),
        Strategy::Manual => set_bit_manual_spec(bytes, idx),
    }
}

/// The (buffer, generator state) pair left after `iters` iterations of the
/// worker loop: each iteration draws an index over the buffer's full bit
/// range and applies the strategy there.
pub open spec fn run_spec(
    bytes: Seq<u8>,
    mode: IndexMode,
    strategy: Strategy,
    state: u64,
    iters: nat,
) -> (Seq<u8>, u64)
    recommends
        0 < bytes.len() * 8 <= u64::MAX,
    decreases iters,
{
    if iters == 0 {
        (bytes, state)
    } else {
        let total_bits = (bytes.len() * 8) as u64;
        let drawn = next_index_spec(mode, state, total_bits);
        run_spec(
            apply_strategy_spec(strategy, bytes, drawn.0 as int),
            mode,
            strategy,
            drawn.1,
            (iters - 1) as nat,
        )
    }
}

/// Run the worker loop for `iterations` iterations against `bitmap`,
/// starting the index source at `seed`. Returns the generator state to
/// carry into a further run; the bitmap ends exactly as `run_spec` says.
pub fn run_worker(
    bitmap: &mut BitMap,
    mode: IndexMode,
    strategy: Strategy,
    seed: u64,
    iterations: u64,
) -> (end_state: u64)
    requires
        0 < old(bitmap)@.len(),
        old(bitmap)@.len() * 8 <= u64::MAX,
    ensures
        (final(bitmap)@, end_state) == run_spec(
            old(bitmap)@,
            mode,
            strategy,
            seed,
            iterations as nat,
        ),
        final(bitmap)@.len() == old(bitmap)@.len(),
{
    let ghost orig: Seq<u8> = bitmap@;
    let n: usize = bitmap.len_bytes();
    let total_bits: u64 = (n as u64) * 8;
    let mut state: u64 = seed;
    let mut done: u64 = 0;
    while done < iterations
        invariant
            done <= iterations,
            bitmap@.len() == orig.len(),
            0 < orig.len(),
            orig.len() * 8 <= u64::MAX,
            total_bits == orig.len() * 8,
            run_spec(orig, mode, strategy, seed, iterations as nat) == run_spec(
                bitmap@,
                mode,
                strategy,
                state,
                (iterations - done) as nat,
            ),
        decreases iterations - done,
    {
        let drawn: (u64, u64) = next_index(mode, state, total_bits);
        match strategy {
            Strategy::Atomic => bitmap.set_bit_atomic(drawn.0),
            Strategy::Manual => bitmap.set_bit_manual(drawn.0),
        }
        state = drawn.1;
        done = done + 1;
    }
    state
}

/// The iterations-per-microsecond figure the reporter prints, which equals
/// millions of iterations per second: the interval's iteration count over
/// the elapsed wall-clock microseconds.
pub fn throughput_millions_per_sec(interval_iters: u64, elapsed_micros: u64) -> (rate: u64)
    requires
        elapsed_micros > 0,
    ensures
        rate == interval_iters / elapsed_micros,
{
    interval_iters / elapsed_micros
}

/// Fold one throughput sample into the running maximum kept for display.
pub fn update_max_observed(current_max: u64, sample: u64) -> (new_max: u64)
    ensures
        new_max == if sample > current_max {
            sample
        } else {
            current_max
        },
        new_max >= current_max,
        new_max >= sample,
{
    if sample > current_max {
        sample
    } else {
        current_max
    }
}

/// Whether this iteration emits a progress line: only the designated
/// reporter (worker id 0) reports, and only when the iteration counter has
/// just crossed an interval boundary.
pub fn should_report(id: usize, iter: u64, interval: u64) -> (report: bool)
    requires
        interval > 0,
    ensures
        report == (id == 0 && iter % interval == 0),
{
    id == 0 && iter % interval == 0
}

} // verus!
