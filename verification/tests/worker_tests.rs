//! Tests for the bounded worker loop and the reporter's arithmetic.
use bitbench::bitmap::BitMap;
use bitbench::index_source::IndexMode;
use bitbench::rng::xorshift;
use bitbench::worker::Strategy;
use bitbench::worker::run_worker;
use bitbench::worker::should_report;
use bitbench::worker::throughput_millions_per_sec;
use bitbench::worker::update_max_observed;

#[test]
fn run_worker_constant_mode_hits_one_bit() {
    // 16 bytes = 128 bits; the fixed index reduces to 123123 % 128 = 115,
    // which is byte 14, bit 3. Every iteration hits that one bit.
    let mut bitmap = BitMap::create(16);
    let end_state = run_worker(&mut bitmap, IndexMode::Constant, Strategy::Atomic, 77, 5);
    assert_eq!(end_state, 77);
    for i in 0..16 {
        assert_eq!(bitmap.byte_at(i), if i == 14 { 0b0000_1000 } else { 0 });
    }
}

#[test]
fn run_worker_zero_iterations_changes_nothing() {
    let mut bitmap = BitMap::create(16);
    let end_state = run_worker(&mut bitmap, IndexMode::Random, Strategy::Manual, 5, 0);
    assert_eq!(end_state, 5);
    for i in 0..16 {
        assert_eq!(bitmap.byte_at(i), 0);
    }
}

#[test]
fn run_worker_random_mode_follows_recurrence() {
    // 16 bytes = 128 bits, seed 0xdeadbeef: the three drawn states reduce
    // to bit indices 87, 63 and 109.
    let seed: u64 = 0xdead_beef;
    let mut bitmap = BitMap::create(16);
    let end_state = run_worker(&mut bitmap, IndexMode::Random, Strategy::Atomic, seed, 3);
    assert_eq!(end_state, xorshift(xorshift(xorshift(seed))));
    assert_eq!(end_state, 0xfb80_cfbf_a42a_d8ed);
    for bit in 0..128u64 {
        assert_eq!(bitmap.bit_at(bit), bit == 87 || bit == 63 || bit == 109);
    }
}

#[test]
fn run_worker_strategies_agree() {
    let seed: u64 = 12345;
    let mut with_atomic = BitMap::create(16);
    let mut with_manual = BitMap::create(16);
    let atomic_state = run_worker(&mut with_atomic, IndexMode::Random, Strategy::Atomic, seed, 50);
    let manual_state = run_worker(&mut with_manual, IndexMode::Random, Strategy::Manual, seed, 50);
    assert_eq!(atomic_state, manual_state);
    for i in 0..16 {
        assert_eq!(with_atomic.byte_at(i), with_manual.byte_at(i));
    }
}

#[test]
fn throughput_formula() {
    // 50,000,000 iterations in one second is 50 M iterations per second.
    assert_eq!(throughput_millions_per_sec(50_000_000, 1_000_000), 50);
    assert_eq!(throughput_millions_per_sec(50_000_000, 2_000_000), 25);
    assert_eq!(throughput_millions_per_sec(50_000_000, 3_000_000), 16);
    assert_eq!(throughput_millions_per_sec(0, 1), 0);
}

#[test]
fn max_observed_is_a_running_maximum() {
    assert_eq!(update_max_observed(0, 40), 40);
    assert_eq!(update_max_observed(40, 25), 40);
    assert_eq!(update_max_observed(40, 41), 41);
    assert_eq!(update_max_observed(7, 7), 7);
}

#[test]
fn only_reporter_reports_on_boundaries() {
    let interval: u64 = 50_000_000;
    assert!(should_report(0, 50_000_000, interval));
    assert!(should_report(0, 100_000_000, interval));
    assert!(!should_report(0, 50_000_001, interval));
    assert!(!should_report(1, 50_000_000, interval));
    // Iteration counts start at 1 in the loop, so 0 never comes up, but the
    // predicate is total: 0 is a boundary for the reporter.
    assert!(should_report(0, 0, interval));
}
