use vps_toolkit::aggregate::{AggregateResult, Aggregator, MergeError};
use vps_toolkit::worker::WorkerResult;
use vps_toolkit::workload::{MixRatio, Mode, WorkloadSpec};

fn spec(mode: Mode, workers: usize) -> WorkloadSpec {
    WorkloadSpec::new(4096, 1_048_576, mode, workers, false, MixRatio::even()).unwrap()
}

fn written(bytes: u64, ns: u64) -> WorkerResult {
    WorkerResult { bytes_read: 0, bytes_written: bytes, read_ns: 0, write_ns: ns }
}

#[test]
fn four_sequential_writers_move_the_whole_mebibyte() {
    let mut agg = Aggregator::new(spec(Mode::SeqWrite, 4)).unwrap();
    for ns in [1000u64, 2000, 3000, 4001] {
        assert_eq!(agg.finish(), None);
        assert_eq!(agg.merge(&written(262_144, ns)), Ok(()));
    }
    assert_eq!(agg.count(), 4);
    assert_eq!(
        agg.finish(),
        Some(AggregateResult { bytes_read: 0, bytes_written: 1_048_576, read_ns: 0, write_ns: 2500 })
    );
}

#[test]
fn aggregate_bytes_leave_the_remainder_blocks_out() {
    // 10 blocks among 3 workers: 9 blocks are moved.
    let s = WorkloadSpec::new(512, 5120, Mode::RandRead, 3, false, MixRatio::even()).unwrap();
    let mut agg = Aggregator::new(s).unwrap();
    for _ in 0..3 {
        let r = WorkerResult { bytes_read: 1536, bytes_written: 0, read_ns: 10, write_ns: 0 };
        assert_eq!(agg.merge(&r), Ok(()));
    }
    let total = agg.finish().unwrap();
    assert_eq!(total.bytes_read + total.bytes_written, 3 * 3 * 512);
    assert_eq!(total.read_ns, 10);
}

#[test]
fn mixed_results_add_up_on_both_sides() {
    let mut agg = Aggregator::new(spec(Mode::RandRW, 2)).unwrap();
    let a = WorkerResult { bytes_read: 4096, bytes_written: 520_192, read_ns: 7, write_ns: 8 };
    let b = WorkerResult { bytes_read: 524_288, bytes_written: 0, read_ns: 10, write_ns: 11 };
    assert_eq!(agg.merge(&a), Ok(()));
    assert_eq!(agg.merge(&b), Ok(()));
    assert_eq!(
        agg.finish(),
        Some(AggregateResult { bytes_read: 528_384, bytes_written: 520_192, read_ns: 8, write_ns: 9 })
    );
}

#[test]
fn single_worker_time_is_reported_unchanged() {
    let mut agg = Aggregator::new(spec(Mode::SeqRead, 1)).unwrap();
    let r = WorkerResult { bytes_read: 1_048_576, bytes_written: 0, read_ns: 987_654_321, write_ns: 0 };
    assert_eq!(agg.merge(&r), Ok(()));
    let total = agg.finish().unwrap();
    assert_eq!(total.read_ns, 987_654_321);
    assert_eq!(total.write_ns, 0);
    assert_eq!(total.bytes_read, 1_048_576);
}

#[test]
fn a_result_beyond_the_last_worker_is_refused() {
    let mut agg = Aggregator::new(spec(Mode::SeqWrite, 2)).unwrap();
    assert_eq!(agg.merge(&written(524_288, 1)), Ok(()));
    assert_eq!(agg.merge(&written(524_288, 1)), Ok(()));
    let before = agg.finish();
    assert_eq!(agg.merge(&written(524_288, 1)), Err(MergeError::Full));
    assert_eq!(agg.count(), 2);
    assert_eq!(agg.finish(), before);
}

#[test]
fn a_result_that_is_not_a_whole_share_is_refused() {
    let mut agg = Aggregator::new(spec(Mode::SeqWrite, 4)).unwrap();
    assert_eq!(agg.merge(&written(262_143, 1)), Err(MergeError::Incomplete));
    assert_eq!(agg.merge(&written(262_145, 1)), Err(MergeError::Incomplete));
    let over = WorkerResult { bytes_read: u64::MAX, bytes_written: 262_145, read_ns: 0, write_ns: 0 };
    assert_eq!(agg.merge(&over), Err(MergeError::Incomplete));
    assert_eq!(agg.count(), 0);
    assert_eq!(agg.finish(), None);
}

#[test]
fn full_is_reported_before_incomplete() {
    let mut agg = Aggregator::new(spec(Mode::SeqWrite, 1)).unwrap();
    assert_eq!(agg.merge(&written(1_048_576, 1)), Ok(()));
    assert_eq!(agg.merge(&written(5, 1)), Err(MergeError::Full));
}

#[test]
fn long_durations_do_not_overflow_the_sums() {
    let mut agg = Aggregator::new(spec(Mode::SeqWrite, 4)).unwrap();
    for _ in 0..4 {
        assert_eq!(agg.merge(&written(262_144, u64::MAX)), Ok(()));
    }
    assert_eq!(agg.finish().unwrap().write_ns, u64::MAX);
}

#[test]
fn aggregator_needs_a_workload() {
    let broken = WorkloadSpec { concurrency: 0, ..spec(Mode::SeqWrite, 4) };
    assert!(Aggregator::new(broken).is_none());
}
