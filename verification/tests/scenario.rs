use vps_toolkit::aggregate::{AggregateResult, Aggregator};
use vps_toolkit::cell::{CellAction, CellEvent, CellOutcome, CellRun};
use vps_toolkit::errors::BenchError;
use vps_toolkit::provision::{ProvisionAction, ProvisionEvent, Provisioner};
use vps_toolkit::worker::{IoOp, Worker, WorkerAction, WorkerEvent};
use vps_toolkit::workload::{MixRatio, Mode, OpenMode, WorkloadSpec};

/// A backing file held in memory. It counts how often each byte was
/// written, refuses direct opens where told to, and can be removed.
struct MemFile {
    bytes: Option<Vec<u8>>,
    writes: Vec<u32>,
    reads: u64,
    syncs: u32,
    direct_supported: bool,
}

impl MemFile {
    fn new(direct_supported: bool) -> MemFile {
        MemFile { bytes: None, writes: Vec::new(), reads: 0, syncs: 0, direct_supported }
    }

    fn apply(&mut self, op: IoOp, block: usize) -> bool {
        let bytes = match self.bytes.as_mut() {
            Some(b) => b,
            None => return false,
        };
        match op {
            IoOp::Read { offset } => {
                let at = offset as usize;
                if at + block > bytes.len() {
                    return false;
                }
                self.reads += 1;
                true
            }
            IoOp::Write { offset } => {
                let at = offset as usize;
                if at + block > bytes.len() {
                    return false;
                }
                for i in at..at + block {
                    bytes[i] = 0;
                    self.writes[i] += 1;
                }
                true
            }
            IoOp::Sync => {
                self.syncs += 1;
                true
            }
        }
    }
}

fn provision(spec: WorkloadSpec, f: &mut MemFile) -> bool {
    let mut steps = Provisioner::new(spec).unwrap();
    let mut action = steps.step(ProvisionEvent::Start);
    loop {
        match action {
            ProvisionAction::Create => f.bytes = Some(Vec::new()),
            ProvisionAction::WriteZeros { len } => {
                let b = f.bytes.as_mut().unwrap();
                b.extend(std::iter::repeat(0u8).take(len));
            }
            ProvisionAction::Flush => {
                let len = f.bytes.as_ref().unwrap().len();
                f.writes = vec![0; len];
            }
            ProvisionAction::Ready => return true,
            ProvisionAction::Fail(_) | ProvisionAction::Ignored => return false,
        }
        action = steps.step(ProvisionEvent::Completed);
    }
}

/// Brings a worker to the barrier and returns the mode its file is open in.
fn open_phase(worker: &mut Worker, f: &MemFile) -> OpenMode {
    let mut opened = OpenMode::Buffered;
    let mut action = worker.step(WorkerEvent::Start);
    loop {
        let event = match action {
            WorkerAction::Open(mode) => {
                if f.bytes.is_some() && (mode == OpenMode::Buffered || f.direct_supported) {
                    opened = mode;
                    WorkerEvent::Opened
                } else {
                    WorkerEvent::OpenFailed
                }
            }
            WorkerAction::WaitAtBarrier => return opened,
            other => panic!("unexpected action {:?}", other),
        };
        action = worker.step(event);
    }
}

/// Runs the workers of a cell in turns, one action each: all of them are
/// brought to the barrier first, then released together.
fn run_workers(
    spec: WorkloadSpec,
    f: &mut MemFile,
    concurrency: usize,
) -> (CellEvent, Vec<Result<OpenMode, BenchError>>) {
    let mut totals = Aggregator::new(spec).unwrap();
    let mut workers: Vec<Worker> =
        (0..concurrency).map(|tid| Worker::new(spec, tid).unwrap()).collect();
    let opened: Vec<OpenMode> = workers.iter_mut().map(|w| open_phase(w, f)).collect();

    let mut pending: Vec<Option<WorkerEvent>> = vec![Some(WorkerEvent::Released); concurrency];
    let mut ended: Vec<Option<Result<OpenMode, BenchError>>> = vec![None; concurrency];
    while pending.iter().any(|p| p.is_some()) {
        for tid in 0..concurrency {
            let event = match pending[tid].take() {
                Some(e) => e,
                None => continue,
            };
            pending[tid] = match workers[tid].step(event) {
                WorkerAction::Io(op) => Some(if f.apply(op, spec.block_size) {
                    WorkerEvent::Done
                } else {
                    WorkerEvent::IoFailed
                }),
                WorkerAction::ReadClock => {
                    Some(WorkerEvent::Clock { elapsed_ns: 1_000_000 * (tid as u64 + 1) })
                }
                WorkerAction::Report(result) => {
                    totals.merge(&result).unwrap();
                    Some(WorkerEvent::Reported)
                }
                WorkerAction::Exit => {
                    ended[tid] = Some(Ok(opened[tid]));
                    None
                }
                WorkerAction::Fail(e) => {
                    ended[tid] = Some(Err(e));
                    None
                }
                other => panic!("unexpected action {:?}", other),
            };
        }
    }
    let ended: Vec<Result<OpenMode, BenchError>> = ended.into_iter().map(|e| e.unwrap()).collect();
    let event = match ended.iter().find_map(|r| r.err()) {
        Some(e) => CellEvent::WorkerFailed(e),
        None => CellEvent::Joined(totals.finish().unwrap()),
    };
    (event, ended)
}

struct CellReport {
    outcome: CellOutcome,
    totals: Option<AggregateResult>,
    opened: Vec<Result<OpenMode, BenchError>>,
}

fn run_cell(spec: WorkloadSpec, file: &mut MemFile) -> CellReport {
    let mut cell = CellRun::new(spec).unwrap();
    let mut totals = None;
    let mut opened = Vec::new();
    let mut action = cell.step(CellEvent::Start);
    loop {
        let event = match action {
            CellAction::Provision { blocks, block_size } => {
                assert_eq!(blocks, spec.total_blocks());
                assert_eq!(block_size, spec.block_size);
                if provision(spec, file) {
                    CellEvent::Provisioned
                } else {
                    CellEvent::ProvisionFailed
                }
            }
            CellAction::RunWorkers { concurrency } => {
                let (event, ended) = run_workers(spec, file, concurrency);
                if let CellEvent::Joined(a) = event {
                    totals = Some(a);
                }
                opened = ended;
                event
            }
            CellAction::Remove => {
                if file.bytes.take().is_some() {
                    CellEvent::Removed
                } else {
                    CellEvent::RemoveFailed
                }
            }
            CellAction::Finish { outcome, cleanup_failed } => {
                assert!(!cleanup_failed);
                return CellReport { outcome, totals, opened };
            }
            CellAction::Ignored => panic!("event out of turn"),
        };
        action = cell.step(event);
    }
}

fn spec(mode: Mode, direct: bool) -> WorkloadSpec {
    WorkloadSpec::new(4096, 1_048_576, mode, 4, direct, MixRatio::even()).unwrap()
}

#[test]
fn four_workers_write_one_mebibyte_sequentially() {
    let mut file = MemFile::new(true);
    let report = run_cell(spec(Mode::SeqWrite, false), &mut file);
    let totals = report.totals.unwrap();
    assert_eq!(totals.bytes_written, 1_048_576);
    assert_eq!(totals.bytes_read, 0);
    // The clocks read 1, 2, 3 and 4 ms; the aggregate holds their mean.
    assert_eq!(totals.write_ns, 2_500_000);
    assert_eq!(totals.read_ns, 0);
    match report.outcome {
        CellOutcome::Measured(m) => {
            assert!(m.throughput_bytes_per_sec.is_positive());
            assert!(m.ops_per_sec.is_positive());
            assert_eq!(m.throughput_bytes_per_sec.rounded(), 419_430_400);
            assert_eq!(m.ops_per_sec.rounded(), 102_400);
            assert_eq!(m.throughput_bytes_per_sec.hundredths_of_mib(), 40_000);
        }
        other => panic!("unexpected outcome {:?}", other),
    }
    let f = &file;
    // After the run the backing file is gone.
    assert!(f.bytes.is_none());
    // Every byte was written once: the slices of the workers tile the file.
    assert_eq!(f.writes.len(), 1_048_576);
    assert!(f.writes.iter().all(|&n| n == 1));
    assert_eq!(f.syncs, 4);
    assert_eq!(f.reads, 0);
}

#[test]
fn every_pattern_moves_the_same_number_of_bytes() {
    for mode in [Mode::SeqRead, Mode::SeqWrite, Mode::RandRead, Mode::RandWrite, Mode::RandRW] {
        let mut file = MemFile::new(true);
        let report = run_cell(spec(mode, false), &mut file);
        let totals = report.totals.unwrap();
        assert_eq!(totals.bytes_read + totals.bytes_written, 64 * 4 * 4096, "{:?}", mode);
        let f = &file;
        let written: u64 = f.writes.iter().map(|&n| n as u64).sum();
        assert_eq!(written, totals.bytes_written);
        assert_eq!(f.reads * 4096, totals.bytes_read);
        assert_eq!(f.syncs, if mode.needs_flush() { 4 } else { 0 });
    }
}

#[test]
fn a_second_run_does_not_see_what_the_first_left() {
    let mut file = MemFile::new(true);
    let first = run_cell(spec(Mode::RandWrite, false), &mut file);
    // Leave rubbish behind, as a run that could not clean up would.
    file.bytes = Some(vec![0xff; 12345]);
    let second = run_cell(spec(Mode::RandWrite, false), &mut file);
    let (a, b) = (first.totals.unwrap(), second.totals.unwrap());
    assert_eq!((a.bytes_read, a.bytes_written), (b.bytes_read, b.bytes_written));
    assert_eq!(file.writes.len(), 1_048_576);
}

#[test]
fn success_does_not_depend_on_direct_io_support() {
    for supported in [true, false] {
        let mut file = MemFile::new(supported);
        let report = run_cell(spec(Mode::SeqWrite, true), &mut file);
        assert!(matches!(report.outcome, CellOutcome::Measured(_)));
        assert_eq!(report.totals.unwrap().bytes_written, 1_048_576);
        let expected = if supported { OpenMode::Direct } else { OpenMode::Buffered };
        assert!(report.opened.iter().all(|r| *r == Ok(expected)));
    }
}

#[test]
fn remainder_blocks_are_never_touched() {
    // 10 blocks among 3 workers: the tenth block stays as provisioned.
    let s = WorkloadSpec::new(512, 5120, Mode::SeqWrite, 3, false, MixRatio::even()).unwrap();
    let mut file = MemFile::new(true);
    let report = run_cell(s, &mut file);
    assert_eq!(report.totals.unwrap().bytes_written, 9 * 512);
    let f = &file;
    assert!(f.writes[..4608].iter().all(|&n| n == 1));
    assert!(f.writes[4608..].iter().all(|&n| n == 0));
}

#[test]
fn single_worker_reports_its_own_time() {
    let s = WorkloadSpec::new(4096, 65_536, Mode::SeqRead, 1, false, MixRatio::even()).unwrap();
    let mut file = MemFile::new(true);
    let report = run_cell(s, &mut file);
    let totals = report.totals.unwrap();
    assert_eq!(totals.read_ns, 1_000_000);
    assert_eq!(totals.bytes_read, 65_536);
}

#[test]
fn a_file_that_cannot_be_opened_fails_the_cell_with_an_open_error() {
    // The workers are started on a file that is not there.
    let mut file = MemFile::new(true);
    let (event, ended) = run_workers(spec(Mode::SeqRead, true), &mut file, 4);
    assert_eq!(event, CellEvent::WorkerFailed(BenchError::Open));
    assert!(ended.iter().all(|r| *r == Err(BenchError::Open)));
}

#[test]
fn a_failing_operation_fails_the_cell_with_an_io_error() {
    // The file is shorter than the workload says: the last worker runs out of it.
    let mut file = MemFile::new(true);
    file.bytes = Some(vec![0; 786_432 + 4096]);
    file.writes = vec![0; 786_432 + 4096];
    let (event, ended) = run_workers(spec(Mode::SeqWrite, false), &mut file, 4);
    assert_eq!(event, CellEvent::WorkerFailed(BenchError::Io));
    assert_eq!(ended[3], Err(BenchError::Io));
    assert!(ended[..3].iter().all(|r| r.is_ok()));
}
