use vps_toolkit::workload::{MixRatio, Mode, SpecError, WorkloadSpec};

fn spec(block: usize, total: usize, mode: Mode, workers: usize) -> WorkloadSpec {
    WorkloadSpec::new(block, total, mode, workers, false, MixRatio::even()).unwrap()
}

#[test]
fn sequential_write_slices_one_mebibyte_among_four() {
    let s = spec(4096, 1_048_576, Mode::SeqWrite, 4);
    assert_eq!(s.total_blocks(), 256);
    assert_eq!(s.blocks_per_thread(), 64);
    assert_eq!(s.bytes_per_thread(), 262_144);
    assert_eq!(s.start_offset(0), 0);
    assert_eq!(s.start_offset(3), 786_432);
    assert_eq!(s.provisioned_size(), 1_048_576);
}

#[test]
fn remainder_blocks_are_left_unused() {
    // 10 blocks among 3 workers: 3 each, the tenth is never touched.
    let s = spec(512, 5120 + 100, Mode::SeqRead, 3);
    assert_eq!(s.total_blocks(), 10);
    assert_eq!(s.blocks_per_thread(), 3);
    assert_eq!(s.bytes_per_thread(), 1536);
    assert_eq!(s.provisioned_size(), 5120);
    assert_eq!(s.start_offset(2), 3072);
    assert_eq!(s.seq_offset(2, 2), 4096);
    assert!(s.seq_offset(2, 2) + 512 <= 4608);
}

#[test]
fn slices_of_neighbours_do_not_overlap() {
    let s = spec(4096, 1_048_576, Mode::SeqRead, 4);
    for tid in 0..3usize {
        let end = s.start_offset(tid) + s.bytes_per_thread();
        assert!(end <= s.start_offset(tid + 1));
    }
    assert!(s.start_offset(3) + s.bytes_per_thread() <= s.provisioned_size());
}

#[test]
fn sequential_offsets_walk_the_slice_block_by_block() {
    let s = spec(4096, 1_048_576, Mode::SeqWrite, 4);
    assert_eq!(s.seq_offset(1, 0), 262_144);
    assert_eq!(s.seq_offset(1, 1), 266_240);
    assert_eq!(s.seq_offset(1, 63), 262_144 + 63 * 4096);
}

#[test]
fn block_offset_is_index_times_block_size() {
    let s = spec(65_536, 1_048_576, Mode::RandRead, 4);
    assert_eq!(s.block_offset(0), 0);
    assert_eq!(s.block_offset(15), 983_040);
}

#[test]
fn zero_block_size_is_refused() {
    assert_eq!(
        WorkloadSpec::new(0, 1024, Mode::RandRead, 4, false, MixRatio::even()),
        Err(SpecError::ZeroBlockSize)
    );
}

#[test]
fn zero_concurrency_is_refused() {
    assert_eq!(
        WorkloadSpec::new(512, 1024, Mode::RandRead, 0, false, MixRatio::even()),
        Err(SpecError::ZeroConcurrency)
    );
}

#[test]
fn a_ratio_above_one_is_refused() {
    let mix = MixRatio { read_parts: 3, total_parts: 2 };
    assert_eq!(
        WorkloadSpec::new(512, 1024, Mode::RandRW, 1, false, mix),
        Err(SpecError::InvalidMix)
    );
    let none = MixRatio { read_parts: 0, total_parts: 0 };
    assert_eq!(
        WorkloadSpec::new(512, 1024, Mode::RandRW, 1, false, none),
        Err(SpecError::InvalidMix)
    );
}

#[test]
fn sequential_pattern_needs_a_block_per_worker() {
    assert_eq!(
        WorkloadSpec::new(512, 1024, Mode::SeqRead, 3, false, MixRatio::even()),
        Err(SpecError::TooFewBlocks)
    );
    // A random pattern with the same parameters is a workload with nothing to do.
    let s = WorkloadSpec::new(512, 1024, Mode::RandRead, 3, false, MixRatio::even()).unwrap();
    assert_eq!(s.blocks_per_thread(), 0);
}

#[test]
fn the_first_failing_check_is_reported() {
    let bad = MixRatio { read_parts: 1, total_parts: 0 };
    assert_eq!(
        WorkloadSpec::new(0, 0, Mode::SeqRead, 0, true, bad),
        Err(SpecError::ZeroBlockSize)
    );
    assert_eq!(
        WorkloadSpec::new(1, 0, Mode::SeqRead, 0, true, bad),
        Err(SpecError::ZeroConcurrency)
    );
}

#[test]
fn is_valid_agrees_with_new() {
    let good = spec(4096, 1_048_576, Mode::SeqWrite, 4);
    assert!(good.is_valid());
    let bad = WorkloadSpec { block_size: 0, ..good };
    assert!(!bad.is_valid());
    let starved = WorkloadSpec { concurrency: 1000, ..good };
    assert!(!starved.is_valid());
}

#[test]
fn mix_ratio_constructor_accepts_probabilities_only() {
    assert_eq!(MixRatio::new(1, 2), Some(MixRatio { read_parts: 1, total_parts: 2 }));
    assert_eq!(MixRatio::new(0, 5), Some(MixRatio { read_parts: 0, total_parts: 5 }));
    assert_eq!(MixRatio::new(5, 5), Some(MixRatio { read_parts: 5, total_parts: 5 }));
    assert_eq!(MixRatio::new(6, 5), None);
    assert_eq!(MixRatio::new(0, 0), None);
    assert_eq!(MixRatio::even(), MixRatio { read_parts: 1, total_parts: 2 });
}

#[test]
fn apportion_splits_in_proportion_and_loses_nothing() {
    let third = MixRatio::new(1, 3).unwrap();
    assert_eq!(third.apportion(1000), (333, 667));
    assert_eq!(MixRatio::even().apportion(1001), (500, 501));
    assert_eq!(MixRatio::new(0, 4).unwrap().apportion(77), (0, 77));
    assert_eq!(MixRatio::new(4, 4).unwrap().apportion(77), (77, 0));
    let (r, w) = MixRatio::new(7, 9).unwrap().apportion(u64::MAX);
    assert_eq!(r as u128 + w as u128, u64::MAX as u128);
}

#[test]
fn mode_predicates() {
    assert!(Mode::SeqRead.is_sequential());
    assert!(Mode::SeqWrite.is_sequential());
    assert!(!Mode::RandRead.is_sequential());
    assert!(!Mode::RandRW.is_sequential());
    assert!(!Mode::SeqRead.needs_flush());
    assert!(!Mode::RandRead.needs_flush());
    assert!(Mode::SeqWrite.needs_flush());
    assert!(Mode::RandWrite.needs_flush());
    assert!(Mode::RandRW.needs_flush());
}
