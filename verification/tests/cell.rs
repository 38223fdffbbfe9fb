use vps_toolkit::aggregate::AggregateResult;
use vps_toolkit::cell::{CellAction, CellEvent, CellOutcome, CellPhase, CellRun};
use vps_toolkit::errors::BenchError;
use vps_toolkit::metrics::DerivedMetrics;
use vps_toolkit::provision::{ProvisionAction, ProvisionEvent, ProvisionPhase, Provisioner};
use vps_toolkit::workload::{MixRatio, Mode, WorkloadSpec};

fn spec() -> WorkloadSpec {
    WorkloadSpec::new(4096, 1_048_576, Mode::SeqWrite, 4, true, MixRatio::even()).unwrap()
}

#[test]
fn a_cell_provisions_runs_cleans_up_and_reports() {
    let mut cell = CellRun::new(spec()).unwrap();
    assert_eq!(cell.phase, CellPhase::Fresh);
    assert_eq!(
        cell.step(CellEvent::Start),
        CellAction::Provision { blocks: 256, block_size: 4096 }
    );
    assert_eq!(cell.step(CellEvent::Provisioned), CellAction::RunWorkers { concurrency: 4 });
    let totals = AggregateResult { bytes_read: 0, bytes_written: 1_048_576, read_ns: 0, write_ns: 1_000_000 };
    assert_eq!(cell.step(CellEvent::Joined(totals)), CellAction::Remove);
    let expected = CellOutcome::Measured(DerivedMetrics::compute(&totals, 4096));
    match expected {
        CellOutcome::Measured(m) => {
            assert_eq!(m.throughput_bytes_per_sec.rounded(), 1_048_576_000);
            assert_eq!(m.ops_per_sec.rounded(), 256_000);
        }
        CellOutcome::Failed(_) => unreachable!(),
    }
    assert_eq!(
        cell.step(CellEvent::Removed),
        CellAction::Finish { outcome: expected, cleanup_failed: false }
    );
    assert_eq!(cell.phase, CellPhase::Done);
    assert_eq!(cell.step(CellEvent::Start), CellAction::Ignored);
}

#[test]
fn measured_throughput_of_the_scenario_is_positive() {
    let mut cell = CellRun::new(spec()).unwrap();
    cell.step(CellEvent::Start);
    cell.step(CellEvent::Provisioned);
    let totals = AggregateResult { bytes_read: 0, bytes_written: 1_048_576, read_ns: 0, write_ns: 3_000_000_000 };
    cell.step(CellEvent::Joined(totals));
    match cell.step(CellEvent::Removed) {
        CellAction::Finish { outcome: CellOutcome::Measured(m), .. } => {
            assert!(m.throughput_bytes_per_sec.is_positive());
            assert!(m.ops_per_sec.is_positive());
            // A third of a MiB a second.
            assert_eq!(m.throughput_bytes_per_sec.hundredths_of_mib(), 33);
        }
        other => panic!("unexpected action {:?}", other),
    }
}

#[test]
fn failed_provisioning_fails_the_cell_but_still_cleans_up() {
    let mut cell = CellRun::new(spec()).unwrap();
    cell.step(CellEvent::Start);
    assert_eq!(cell.step(CellEvent::ProvisionFailed), CellAction::Remove);
    assert_eq!(
        cell.step(CellEvent::Removed),
        CellAction::Finish { outcome: CellOutcome::Failed(BenchError::Provision), cleanup_failed: false }
    );
}

#[test]
fn failed_worker_fails_the_cell() {
    for e in [BenchError::Open, BenchError::Io] {
        let mut cell = CellRun::new(spec()).unwrap();
        cell.step(CellEvent::Start);
        cell.step(CellEvent::Provisioned);
        assert_eq!(cell.step(CellEvent::WorkerFailed(e)), CellAction::Remove);
        assert_eq!(
            cell.step(CellEvent::Removed),
            CellAction::Finish { outcome: CellOutcome::Failed(e), cleanup_failed: false }
        );
    }
}

#[test]
fn failed_cleanup_keeps_the_outcome() {
    let mut cell = CellRun::new(spec()).unwrap();
    cell.step(CellEvent::Start);
    cell.step(CellEvent::Provisioned);
    let totals = AggregateResult { bytes_read: 0, bytes_written: 1_048_576, read_ns: 0, write_ns: 1_000_000 };
    cell.step(CellEvent::Joined(totals));
    let expected = CellOutcome::Measured(DerivedMetrics::compute(&totals, 4096));
    match expected {
        CellOutcome::Measured(m) => {
            assert_eq!(m.throughput_bytes_per_sec.rounded(), 1_048_576_000);
            assert_eq!(m.ops_per_sec.rounded(), 256_000);
        }
        CellOutcome::Failed(_) => unreachable!(),
    }
    assert_eq!(
        cell.step(CellEvent::RemoveFailed),
        CellAction::Finish { outcome: expected, cleanup_failed: true }
    );
}

#[test]
fn cell_events_out_of_turn_change_nothing() {
    let mut cell = CellRun::new(spec()).unwrap();
    let before = cell;
    let totals = AggregateResult { bytes_read: 0, bytes_written: 0, read_ns: 0, write_ns: 0 };
    for ev in [
        CellEvent::Provisioned,
        CellEvent::ProvisionFailed,
        CellEvent::Joined(totals),
        CellEvent::WorkerFailed(BenchError::Io),
        CellEvent::Removed,
        CellEvent::RemoveFailed,
    ] {
        assert_eq!(cell.step(ev), CellAction::Ignored);
        assert_eq!(cell, before);
    }
    cell.step(CellEvent::Start);
    let provisioning = cell;
    assert_eq!(cell.step(CellEvent::Joined(totals)), CellAction::Ignored);
    assert_eq!(cell.step(CellEvent::Removed), CellAction::Ignored);
    assert_eq!(cell, provisioning);
}

#[test]
fn cell_needs_a_workload() {
    let broken = WorkloadSpec { block_size: 0, ..spec() };
    assert!(CellRun::new(broken).is_none());
    assert!(Provisioner::new(broken).is_none());
}

#[test]
fn provisioning_writes_every_block_then_flushes() {
    let s = WorkloadSpec::new(512, 1536 + 7, Mode::RandRead, 2, false, MixRatio::even()).unwrap();
    let mut p = Provisioner::new(s).unwrap();
    assert_eq!(p.step(ProvisionEvent::Start), ProvisionAction::Create);
    for written in 1..=3usize {
        assert_eq!(p.step(ProvisionEvent::Completed), ProvisionAction::WriteZeros { len: 512 });
        assert_eq!(p.written, written);
        assert_eq!(p.phase, ProvisionPhase::Fill);
    }
    assert_eq!(p.step(ProvisionEvent::Completed), ProvisionAction::Flush);
    assert_eq!(p.step(ProvisionEvent::Completed), ProvisionAction::Ready);
    assert_eq!(p.phase, ProvisionPhase::Done);
    assert_eq!(p.written as u64 * 512, s.provisioned_size());
    assert_eq!(p.step(ProvisionEvent::Completed), ProvisionAction::Ignored);
}

#[test]
fn provisioning_of_an_empty_file_only_creates_and_flushes() {
    let s = WorkloadSpec::new(512, 100, Mode::RandRead, 2, false, MixRatio::even()).unwrap();
    let mut p = Provisioner::new(s).unwrap();
    assert_eq!(p.step(ProvisionEvent::Start), ProvisionAction::Create);
    assert_eq!(p.step(ProvisionEvent::Completed), ProvisionAction::Flush);
    assert_eq!(p.step(ProvisionEvent::Completed), ProvisionAction::Ready);
}

#[test]
fn provisioning_gives_up_at_the_first_failure() {
    let s = WorkloadSpec::new(512, 2048, Mode::RandRead, 2, false, MixRatio::even()).unwrap();
    // at creation
    let mut p = Provisioner::new(s).unwrap();
    p.step(ProvisionEvent::Start);
    assert_eq!(p.step(ProvisionEvent::Refused), ProvisionAction::Fail(BenchError::Provision));
    assert_eq!(p.phase, ProvisionPhase::Failed);
    assert_eq!(p.step(ProvisionEvent::Completed), ProvisionAction::Ignored);
    // while writing
    let mut p = Provisioner::new(s).unwrap();
    p.step(ProvisionEvent::Start);
    p.step(ProvisionEvent::Completed);
    assert_eq!(p.step(ProvisionEvent::Refused), ProvisionAction::Fail(BenchError::Provision));
    // at the flush
    let mut p = Provisioner::new(s).unwrap();
    p.step(ProvisionEvent::Start);
    for _ in 0..4 {
        p.step(ProvisionEvent::Completed);
    }
    assert_eq!(p.step(ProvisionEvent::Completed), ProvisionAction::Flush);
    assert_eq!(p.step(ProvisionEvent::Refused), ProvisionAction::Fail(BenchError::Provision));
    // before the start nothing fits
    let mut p = Provisioner::new(s).unwrap();
    assert_eq!(p.step(ProvisionEvent::Refused), ProvisionAction::Ignored);
    assert_eq!(p.step(ProvisionEvent::Completed), ProvisionAction::Ignored);
}

#[test]
fn error_markers_and_fatality() {
    assert_eq!(BenchError::Provision.marker(), "ERR:provision");
    assert_eq!(BenchError::Open.marker(), "ERR:open");
    assert_eq!(BenchError::Io.marker(), "ERR:io");
    assert_eq!(BenchError::Cleanup.marker(), "ERR:cleanup");
    assert!(BenchError::Provision.is_fatal_to_cell());
    assert!(BenchError::Open.is_fatal_to_cell());
    assert!(BenchError::Io.is_fatal_to_cell());
    assert!(!BenchError::Cleanup.is_fatal_to_cell());
}
