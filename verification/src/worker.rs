//! One benchmark worker as a state machine.
//!
//! The caller owns the file, the barrier and the clock. It hands the worker
//! what happened ([`WorkerEvent`]) and carries out what the worker asks for
//! next ([`WorkerAction`]).

use crate::errors::BenchError;
use crate::workload::{Mode, OpenMode, WorkloadSpec};
use rand::rngs::ThreadRng;
use rand::Rng;
use vstd::prelude::*;

verus! {

/// One request to the backing file.
#[derive(Debug, Clone, Copy, PartialEq, Eq, Structural)]
pub enum IoOp {
    /// Read one block at `offset`.
    Read { offset: u64 },
    /// Write one block at `offset`.
    Write { offset: u64 },
    /// Flush everything written to stable storage.
    Sync,
}

/// Byte counts and durations measured by one worker.
#[derive(Debug, Clone, Copy, PartialEq, Eq, Structural)]
pub struct WorkerResult {
    pub bytes_read: u64,
    pub bytes_written: u64,
    /// Nanoseconds attributed to reading.
    pub read_ns: u64,
    /// Nanoseconds attributed to writing.
    pub write_ns: u64,
}

#[derive(Debug, Clone, Copy, PartialEq, Eq, Structural)]
pub enum WorkerPhase {
    Idle,
    OpenFile,
    WaitAtBarrier,
    RunPattern,
    ReportToAggregator,
    Terminate,
}

/// What the caller observed since the last action.
#[derive(Debug, Clone, Copy, PartialEq, Eq, Structural)]
pub enum WorkerEvent {
    /// The worker thread has started.
    Start,
    /// The open that was asked for succeeded.
    Opened,
    /// The open that was asked for failed.
    OpenFailed,
    /// The barrier let all workers go.
    Released,
    /// The operation that was asked for completed.
    Done,
    /// The operation that was asked for failed.
    IoFailed,
    /// Time since the release of the barrier, in nanoseconds.
    Clock { elapsed_ns: u64 },
    /// The result was handed to the aggregator.
    Reported,
}

/// What the caller is to do next.
#[derive(Debug, Clone, Copy, PartialEq, Eq, Structural)]
pub enum WorkerAction {
    /// Open the backing file read-write in the given mode.
    Open(OpenMode),
    /// Wait at the barrier, then start the clock.
    WaitAtBarrier,
    /// Perform one operation on the file.
    Io(IoOp),
    /// Read the clock.
    ReadClock,
    /// Hand the result to the aggregator.
    Report(WorkerResult),
    /// Give up: the cell has failed.
    Fail(BenchError),
    /// The worker is finished.
    Exit,
    /// The event does not fit the current phase; nothing changed.
    Ignored,
}

/// The random choices one operation may need.
#[derive(Debug, Clone, Copy, PartialEq, Eq, Structural)]
pub struct Draw {
    /// Mixed pattern: read rather than write.
    pub read: bool,
    /// Random patterns: index of the block to touch.
    pub block: usize,
}

impl Draw {
    /// A draw fits a workload when the block exists and the coin respects a
    /// ratio of zero or one.
    pub open spec fn fits(self, spec: WorkloadSpec) -> bool {
        &&& self.block < spec.blocks()
        &&& (spec.mode == Mode::RandRW && spec.mix.read_parts == 0 ==> !self.read)
        &&& (spec.mode == Mode::RandRW && spec.mix.read_parts == spec.mix.total_parts
            ==> self.read)
    }
}

/// Everything a worker knows between two events.
#[derive(Debug, Clone, Copy, PartialEq, Eq)]
pub struct WorkerState {
    pub spec: WorkloadSpec,
    /// Index of this worker, below `spec.concurrency`.
    pub tid: usize,
    pub phase: WorkerPhase,
    /// Opens asked for so far: at most the first try and one fallback.
    pub attempts: u8,
    /// Mode in which the file is open, once it is.
    pub opened: Option<OpenMode>,
    /// Block operations asked for so far.
    pub issued: usize,
    /// How many of them were reads.
    pub reads: usize,
    /// The final flush has been asked for.
    pub flushed: bool,
    /// The clock reading has been asked for.
    pub clock_asked: bool,
}

impl WorkerState {
    /// State of worker `tid` before it is started.
    pub open spec fn initial(spec: WorkloadSpec, tid: usize) -> WorkerState {
        WorkerState {
            spec,
            tid,
            phase: WorkerPhase::Idle,
            attempts: 0,
            opened: None,
            issued: 0,
            reads: 0,
            flushed: false,
            clock_asked: false,
        }
    }

    /// Mode of the first open: direct where the workload asks for it.
    pub open spec fn first_mode(self) -> OpenMode {
        if self.spec.direct_io {
            OpenMode::Direct
        } else {
            OpenMode::Buffered
        }
    }

    /// Mode of the open that is under way.
    pub open spec fn attempt_mode(self) -> OpenMode {
        if self.attempts <= 1 {
            self.first_mode()
        } else {
            OpenMode::Buffered
        }
    }

    /// Whether the next block operation is a read.
    pub open spec fn next_is_read(self, draw: Draw) -> bool {
        match self.spec.mode {
            Mode::SeqRead => true,
            Mode::RandRead => true,
            Mode::SeqWrite => false,
            Mode::RandWrite => false,
            Mode::RandRW => draw.read,
        }
    }

    /// Offset of the next block operation: the next block of the worker's own
    /// slice under a sequential pattern, the drawn block otherwise.
    pub open spec fn next_offset(self, draw: Draw) -> int {
        if self.spec.mode.sequential() {
            self.spec.slice_start(self.tid as int) + self.issued * self.spec.block_size
        } else {
            draw.block * self.spec.block_size
        }
    }

    /// The next block operation.
    pub open spec fn next_op(self, draw: Draw) -> IoOp {
        if self.next_is_read(draw) {
            IoOp::Read { offset: self.next_offset(draw) as u64 }
        } else {
            IoOp::Write { offset: self.next_offset(draw) as u64 }
        }
    }

    /// Bytes read so far.
    pub open spec fn read_bytes(self) -> int {
        self.reads * self.spec.block_size
    }

    /// Bytes written so far.
    pub open spec fn written_bytes(self) -> int {
        (self.issued - self.reads) * self.spec.block_size
    }

    /// The result reported for a clock reading of `elapsed_ns`. Pure reads
    /// and pure writes own the whole duration; the mixed pattern splits it by
    /// the configured ratio, whatever the operations actually were.
    pub open spec fn result(self, elapsed_ns: u64) -> WorkerResult {
        WorkerResult {
            bytes_read: self.read_bytes() as u64,
            bytes_written: self.written_bytes() as u64,
            read_ns: match self.spec.mode {
                Mode::SeqRead => elapsed_ns,
                Mode::RandRead => elapsed_ns,
                Mode::SeqWrite => 0,
                Mode::RandWrite => 0,
                Mode::RandRW => self.spec.mix.read_share(elapsed_ns) as u64,
            },
            write_ns: match self.spec.mode {
                Mode::SeqRead => 0,
                Mode::RandRead => 0,
                Mode::SeqWrite => elapsed_ns,
                Mode::RandWrite => elapsed_ns,
                Mode::RandRW => (elapsed_ns - self.spec.mix.read_share(elapsed_ns)) as u64,
            },
        }
    }

    /// Whether the step taken on `ev` consumes the draw.
    pub open spec fn uses_draw(self, ev: WorkerEvent) -> bool {
        &&& !self.spec.mode.sequential()
        &&& self.issued < self.spec.per_worker()
        &&& !self.clock_asked
        &&& (self.phase == WorkerPhase::WaitAtBarrier && ev == WorkerEvent::Released
            && self.opened is Some || self.phase == WorkerPhase::RunPattern && ev
            == WorkerEvent::Done)
    }

    /// Next request while the pattern runs: the remaining block operations,
    /// then one flush where the pattern writes, then the clock.
    pub open spec fn advance(self, draw: Draw) -> (WorkerState, WorkerAction) {
        if self.issued < self.spec.per_worker() {
            (
                WorkerState {
                    phase: WorkerPhase::RunPattern,
                    issued: (self.issued + 1) as usize,
                    reads: if self.next_is_read(draw) {
                        (self.reads + 1) as usize
                    } else {
                        self.reads
                    },
                    ..self
                },
                WorkerAction::Io(self.next_op(draw)),
            )
        } else if self.spec.mode.flushes() && !self.flushed {
            (
                WorkerState { phase: WorkerPhase::RunPattern, flushed: true, ..self },
                WorkerAction::Io(IoOp::Sync),
            )
        } else {
            (
                WorkerState { phase: WorkerPhase::RunPattern, clock_asked: true, ..self },
                WorkerAction::ReadClock,
            )
        }
    }

    /// The transition function: state and action that follow `ev`.
    pub open spec fn next(self, ev: WorkerEvent, draw: Draw) -> (WorkerState, WorkerAction) {
        match (self.phase, ev) {
            (WorkerPhase::Idle, WorkerEvent::Start) => (
                WorkerState { phase: WorkerPhase::OpenFile, attempts: 1, ..self },
                WorkerAction::Open(self.first_mode()),
            ),
            (WorkerPhase::OpenFile, WorkerEvent::Opened) => (
                WorkerState {
                    phase: WorkerPhase::WaitAtBarrier,
                    opened: Some(self.attempt_mode()),
                    ..self
                },
                WorkerAction::WaitAtBarrier,
            ),
            (WorkerPhase::OpenFile, WorkerEvent::OpenFailed) => if self.attempts <= 1 {
                (WorkerState { attempts: 2, ..self }, WorkerAction::Open(OpenMode::Buffered))
            } else {
                (
                    WorkerState { phase: WorkerPhase::WaitAtBarrier, opened: None, ..self },
                    WorkerAction::WaitAtBarrier,
                )
            },
            (WorkerPhase::WaitAtBarrier, WorkerEvent::Released) => if self.opened is None {
                (
                    WorkerState { phase: WorkerPhase::Terminate, ..self },
                    WorkerAction::Fail(BenchError::Open),
                )
            } else {
                self.advance(draw)
            },
            (WorkerPhase::RunPattern, WorkerEvent::Done) => if self.clock_asked {
                (self, WorkerAction::Ignored)
            } else {
                self.advance(draw)
            },
            (WorkerPhase::RunPattern, WorkerEvent::IoFailed) => if self.clock_asked {
                (self, WorkerAction::Ignored)
            } else {
                (
                    WorkerState { phase: WorkerPhase::Terminate, ..self },
                    WorkerAction::Fail(BenchError::Io),
                )
            },
            (WorkerPhase::RunPattern, WorkerEvent::Clock { elapsed_ns }) => if self.clock_asked {
                (
                    WorkerState { phase: WorkerPhase::ReportToAggregator, ..self },
                    WorkerAction::Report(self.result(elapsed_ns)),
                )
            } else {
                (self, WorkerAction::Ignored)
            },
            (WorkerPhase::ReportToAggregator, WorkerEvent::Reported) => (
                WorkerState { phase: WorkerPhase::Terminate, ..self },
                WorkerAction::Exit,
            ),
            _ => (self, WorkerAction::Ignored),
        }
    }

    /// What holds of every state a worker can be in.
    pub open spec fn wf(self) -> bool {
        &&& self.spec.wf()
        &&& self.tid < self.spec.concurrency
        &&& self.attempts <= 2
        &&& self.reads <= self.issued <= self.spec.per_worker()
        &&& (self.phase == WorkerPhase::Idle <==> self.attempts == 0)
        &&& (self.phase == WorkerPhase::RunPattern || self.phase
            == WorkerPhase::ReportToAggregator ==> self.opened is Some)
        &&& (self.issued > 0 || self.flushed || self.clock_asked ==> self.opened is Some && (
        self.phase == WorkerPhase::RunPattern || self.phase == WorkerPhase::ReportToAggregator
            || self.phase == WorkerPhase::Terminate))
        &&& (self.flushed ==> self.spec.mode.flushes() && self.issued == self.spec.per_worker())
        &&& (self.clock_asked ==> self.issued == self.spec.per_worker() && (
        self.spec.mode.flushes() ==> self.flushed))
        &&& (self.phase == WorkerPhase::ReportToAggregator ==> self.clock_asked)
        &&& (self.spec.mode == Mode::SeqRead || self.spec.mode == Mode::RandRead ==> self.reads
            == self.issued)
        &&& (self.spec.mode == Mode::SeqWrite || self.spec.mode == Mode::RandWrite ==> self.reads
            == 0)
        &&& (self.spec.mode == Mode::RandRW && self.spec.mix.read_parts == 0 ==> self.reads == 0)
        &&& (self.spec.mode == Mode::RandRW && self.spec.mix.read_parts
            == self.spec.mix.total_parts ==> self.reads == self.issued)
    }

    /// A worker that has not been started. `None` where `tid` is not a
    /// worker of `spec` or `spec` is not a workload.
    pub fn new(spec: WorkloadSpec, tid: usize) -> (r: Option<WorkerState>)
        ensures
            r is Some <==> spec.wf() && tid < spec.concurrency,
            r is Some ==> r->0 == Self::initial(spec, tid) && r->0.wf(),
    {
        if !spec.is_valid() || tid >= spec.concurrency {
            return None;
        }
        proof {
            spec.lemma_slice_bounds(0);
        }
        Some(
            WorkerState {
                spec,
                tid,
                phase: WorkerPhase::Idle,
                attempts: 0,
                opened: None,
                issued: 0,
                reads: 0,
                flushed: false,
                clock_asked: false,
            },
        )
    }
}

impl WorkerState {
    /// The result for a clock reading, from the counts kept so far.
    pub fn result_for(&self, elapsed_ns: u64) -> (r: WorkerResult)
        requires
            self.wf(),
        ensures
            r == self.result(elapsed_ns),
            r.bytes_read + r.bytes_written == self.issued * self.spec.block_size,
            r.read_ns + r.write_ns == elapsed_ns,
    {
        proof {
            self.lemma_counts_fit();
        }
        let block: u64 = self.spec.block_size as u64;
        let bytes_read: u64 = (self.reads as u64) * block;
        let bytes_written: u64 = ((self.issued - self.reads) as u64) * block;
        let (read_ns, write_ns): (u64, u64) = match self.spec.mode {
            Mode::SeqRead => (elapsed_ns, 0),
            Mode::RandRead => (elapsed_ns, 0),
            Mode::SeqWrite => (0, elapsed_ns),
            Mode::RandWrite => (0, elapsed_ns),
            Mode::RandRW => self.spec.mix.apportion(elapsed_ns),
        };
        WorkerResult { bytes_read, bytes_written, read_ns, write_ns }
    }

    /// The byte counts of a worker never exceed its share of the file.
    pub proof fn lemma_counts_fit(self)
        requires
            self.wf(),
        ensures
            0 <= self.read_bytes() <= self.spec.worker_bytes(),
            0 <= self.written_bytes() <= self.spec.worker_bytes(),
            self.read_bytes() + self.written_bytes() == self.issued * self.spec.block_size,
            self.issued * self.spec.block_size <= self.spec.worker_bytes(),
            self.spec.worker_bytes() <= self.spec.total_size,
    {
        self.spec.lemma_slice_bounds(0);
        let s = self.spec.block_size as int;
        let p = self.spec.per_worker();
        let r = self.reads as int;
        let i = self.issued as int;
        assert(0 <= r * s <= i * s && i * s <= p * s && (i - r) * s == i * s - r * s) by (
            nonlinear_arith)
            requires
                0 <= r <= i <= p,
                0 < s,
        ;
    }

    fn advance_exec(&mut self, draw: Draw) -> (action: WorkerAction)
        requires
            old(self).wf(),
            old(self).opened is Some,
            !old(self).clock_asked,
            old(self).phase == WorkerPhase::WaitAtBarrier || old(self).phase
                == WorkerPhase::RunPattern,
            !old(self).spec.mode.sequential() && old(self).issued < old(self).spec.per_worker()
                ==> draw.fits(old(self).spec),
        ensures
            (*final(self), action) == old(self).advance(draw),
            final(self).wf(),
    {
        let per: usize = self.spec.blocks_per_thread();
        if self.issued < per {
            let is_read: bool = match self.spec.mode {
                Mode::SeqRead => true,
                Mode::RandRead => true,
                Mode::SeqWrite => false,
                Mode::RandWrite => false,
                Mode::RandRW => draw.read,
            };
            let offset: u64 = if self.spec.mode.is_sequential() {
                self.spec.seq_offset(self.tid, self.issued)
            } else {
                self.spec.block_offset(draw.block)
            };
            self.phase = WorkerPhase::RunPattern;
            self.issued = self.issued + 1;
            if is_read {
                self.reads = self.reads + 1;
                WorkerAction::Io(IoOp::Read { offset })
            } else {
                WorkerAction::Io(IoOp::Write { offset })
            }
        } else if self.spec.mode.needs_flush() && !self.flushed {
            self.phase = WorkerPhase::RunPattern;
            self.flushed = true;
            WorkerAction::Io(IoOp::Sync)
        } else {
            self.phase = WorkerPhase::RunPattern;
            self.clock_asked = true;
            WorkerAction::ReadClock
        }
    }

    /// Takes one step of the state machine. `draw` is consulted only where
    /// [`WorkerState::uses_draw`] says so.
    pub fn step(&mut self, ev: WorkerEvent, draw: Draw) -> (action: WorkerAction)
        requires
            old(self).wf(),
            old(self).uses_draw(ev) ==> draw.fits(old(self).spec),
        ensures
            (*final(self), action) == old(self).next(ev, draw),
            final(self).wf(),
    {
        match (self.phase, ev) {
            (WorkerPhase::Idle, WorkerEvent::Start) => {
                self.phase = WorkerPhase::OpenFile;
                self.attempts = 1;
                if self.spec.direct_io {
                    WorkerAction::Open(OpenMode::Direct)
                } else {
                    WorkerAction::Open(OpenMode::Buffered)
                }
            },
            (WorkerPhase::OpenFile, WorkerEvent::Opened) => {
                let mode: OpenMode = if self.attempts <= 1 && self.spec.direct_io {
                    OpenMode::Direct
                } else {
                    OpenMode::Buffered
                };
                self.phase = WorkerPhase::WaitAtBarrier;
                self.opened = Some(mode);
                WorkerAction::WaitAtBarrier
            },
            (WorkerPhase::OpenFile, WorkerEvent::OpenFailed) => {
                if self.attempts <= 1 {
                    self.attempts = 2;
                    WorkerAction::Open(OpenMode::Buffered)
                } else {
                    self.phase = WorkerPhase::WaitAtBarrier;
                    self.opened = None;
                    WorkerAction::WaitAtBarrier
                }
            },
            (WorkerPhase::WaitAtBarrier, WorkerEvent::Released) => {
                if self.opened.is_none() {
                    self.phase = WorkerPhase::Terminate;
                    WorkerAction::Fail(BenchError::Open)
                } else {
                    self.advance_exec(draw)
                }
            },
            (WorkerPhase::RunPattern, WorkerEvent::Done) => {
                if self.clock_asked {
                    WorkerAction::Ignored
                } else {
                    self.advance_exec(draw)
                }
            },
            (WorkerPhase::RunPattern, WorkerEvent::IoFailed) => {
                if self.clock_asked {
                    WorkerAction::Ignored
                } else {
                    self.phase = WorkerPhase::Terminate;
                    WorkerAction::Fail(BenchError::Io)
                }
            },
            (WorkerPhase::RunPattern, WorkerEvent::Clock { elapsed_ns }) => {
                if self.clock_asked {
                    let result = self.result_for(elapsed_ns);
                    self.phase = WorkerPhase::ReportToAggregator;
                    WorkerAction::Report(result)
                } else {
                    WorkerAction::Ignored
                }
            },
            (WorkerPhase::ReportToAggregator, WorkerEvent::Reported) => {
                self.phase = WorkerPhase::Terminate;
                WorkerAction::Exit
            },
            _ => WorkerAction::Ignored,
        }
    }
}

impl WorkerState {
    /// Whether the step on `ev` needs random choices.
    pub fn wants_draw(&self, ev: WorkerEvent) -> (r: bool)
        requires
            self.wf(),
        ensures
            r == self.uses_draw(ev),
    {
        if self.spec.mode.is_sequential() || self.clock_asked || self.issued
            >= self.spec.blocks_per_thread() {
            return false;
        }
        match (self.phase, ev) {
            (WorkerPhase::WaitAtBarrier, WorkerEvent::Released) => self.opened.is_some(),
            (WorkerPhase::RunPattern, WorkerEvent::Done) => true,
            _ => false,
        }
    }

    /// Every step leads from a well-formed state to a well-formed state.
    pub proof fn law_next_keeps_wf(self, ev: WorkerEvent, draw: Draw)
        requires
            self.wf(),
            self.uses_draw(ev) ==> draw.fits(self.spec),
        ensures
            self.next(ev, draw).0.wf(),
            self.next(ev, draw).0.spec == self.spec,
            self.next(ev, draw).0.tid == self.tid,
    {
    }

    /// Every block operation stays inside the provisioned file, and under a
    /// sequential pattern inside the worker's own slice.
    pub proof fn law_ops_in_bounds(self, ev: WorkerEvent, draw: Draw)
        requires
            self.wf(),
            self.uses_draw(ev) ==> draw.fits(self.spec),
        ensures
            match self.next(ev, draw).1 {
                WorkerAction::Io(IoOp::Read { offset }) | WorkerAction::Io(
                    IoOp::Write { offset },
                ) => {
                    &&& offset + self.spec.block_size <= self.spec.provisioned()
                    &&& offset % (self.spec.block_size as u64) == 0
                    &&& (self.spec.mode.sequential() ==> self.spec.slice_start(self.tid as int)
                        <= offset && offset + self.spec.block_size <= self.spec.slice_end(
                        self.tid as int,
                    ))
                },
                _ => true,
            },
    {
        let action = self.next(ev, draw).1;
        if action is Io && action->Io_0 != IoOp::Sync {
            let s = self.spec.block_size as int;
            let p = self.spec.per_worker();
            let i = self.issued as int;
            let t = self.tid as int;
            self.spec.lemma_slice_bounds(t);
            assert(self.issued < p);
            if self.spec.mode.sequential() {
                assert(0 <= i * s && (i + 1) * s <= p * s && (i + 1) * s == i * s + s) by (
                    nonlinear_arith)
                    requires
                        0 <= i < p,
                        0 < s,
                ;
                assert(t * p * s + i * s == (t * p + i) * s) by (nonlinear_arith);
                vstd::arithmetic::div_mod::lemma_mod_multiples_basic(t * p + i, s);
            } else {
                let b = self.spec.blocks();
                let k = draw.block as int;
                assert(0 <= k * s && (k + 1) * s <= b * s && (k + 1) * s == k * s + s) by (
                    nonlinear_arith)
                    requires
                        0 <= k < b,
                        0 < s,
                ;
                vstd::arithmetic::div_mod::lemma_mod_multiples_basic(k, s);
            }
        }
    }

    /// No operation on the file is asked for before the barrier has released
    /// the worker, and the barrier is reached only from the open phase.
    pub proof fn law_barrier_before_io(self, ev: WorkerEvent, draw: Draw)
        requires
            self.wf(),
        ensures
            self.next(ev, draw).1 is Io ==> (self.phase == WorkerPhase::WaitAtBarrier && ev
                == WorkerEvent::Released) || self.phase == WorkerPhase::RunPattern,
            self.next(ev, draw).1 == WorkerAction::WaitAtBarrier ==> self.phase
                == WorkerPhase::OpenFile && self.next(ev, draw).0.phase
                == WorkerPhase::WaitAtBarrier,
            self.next(ev, draw).0.phase == WorkerPhase::RunPattern ==> self.phase
                == WorkerPhase::RunPattern || self.phase == WorkerPhase::WaitAtBarrier,
    {
    }

    /// Requests still to come before the report while everything succeeds:
    /// the remaining block operations, the flush, the clock reading.
    pub open spec fn pending(self) -> int {
        (self.spec.per_worker() - self.issued) + (if self.spec.mode.flushes() && !self.flushed {
            1int
        } else {
            0int
        }) + (if self.clock_asked {
            0int
        } else {
            1int
        })
    }

    /// While its operations succeed a released worker comes to its report
    /// in a fixed number of steps: each success is answered with the next
    /// block operation, the flush or the request for the clock, and brings
    /// the report one step nearer; the clock reading is answered with the
    /// report.
    pub proof fn law_run_makes_progress(self, ev: WorkerEvent, draw: Draw)
        requires
            self.wf(),
            self.opened is Some,
            self.uses_draw(ev) ==> draw.fits(self.spec),
            (self.phase == WorkerPhase::WaitAtBarrier && ev == WorkerEvent::Released) || (
            self.phase == WorkerPhase::RunPattern && !self.clock_asked && ev == WorkerEvent::Done)
                || (self.phase == WorkerPhase::RunPattern && self.clock_asked && ev is Clock),
        ensures
            ev is Clock ==> self.pending() == 0 && self.next(ev, draw).1 is Report,
            !(ev is Clock) ==> self.next(ev, draw).0.pending() == self.pending() - 1 && (self.next(
                ev,
                draw,
            ).1 is Io || self.next(ev, draw).1 == WorkerAction::ReadClock),
            !(ev is Clock) ==> (self.next(ev, draw).1 == WorkerAction::ReadClock <==> self.pending()
                == 1),
            !(ev is Clock) ==> (self.next(ev, draw).1 == WorkerAction::Io(IoOp::Sync)
                <==> self.pending() == 2 && self.issued == self.spec.per_worker()),
    {
    }

    /// A reported result accounts for the worker's whole share: each of its
    /// `per_worker` blocks was moved once, a pattern that only reads wrote
    /// nothing and spent no time writing (and the other way round), and the
    /// two durations add up to the clock reading.
    pub proof fn law_report_is_complete(self, ev: WorkerEvent, draw: Draw)
        requires
            self.wf(),
        ensures
            match self.next(ev, draw).1 {
                WorkerAction::Report(r) => {
                    &&& ev is Clock
                    &&& r.settles(self.spec, ev->elapsed_ns)
                },
                _ => true,
            },
    {
        if self.next(ev, draw).1 is Report {
            self.lemma_counts_fit();
            let e = ev->elapsed_ns;
            let n = self.spec.mix.read_parts as int;
            let d = self.spec.mix.total_parts as int;
            assert(0 <= (e * n) / d <= e) by (nonlinear_arith)
                requires
                    0 <= e,
                    0 <= n <= d,
                    0 < d,
            ;
        }
    }

    /// The same worker under another pattern.
    pub open spec fn with_mode(self, mode: Mode) -> WorkerState {
        WorkerState { spec: WorkloadSpec { mode, ..self.spec }, ..self }
    }

    /// A mixed pattern that never reads behaves as the random-write pattern:
    /// step for step it asks for the same actions, reports the same result
    /// and moves to the same state.
    pub proof fn law_mixed_without_reads_is_rand_write(self, ev: WorkerEvent, draw: Draw)
        requires
            self.wf(),
            self.spec.mode == Mode::RandRW,
            self.spec.mix.read_parts == 0,
            self.uses_draw(ev) ==> draw.fits(self.spec),
        ensures
            self.with_mode(Mode::RandWrite).wf(),
            self.with_mode(Mode::RandWrite).next(ev, draw).1 == self.next(ev, draw).1,
            self.with_mode(Mode::RandWrite).next(ev, draw).0 == self.next(ev, draw).0.with_mode(
                Mode::RandWrite,
            ),
    {
        if ev is Clock {
            let e = ev->elapsed_ns as int;
            let d = self.spec.mix.total_parts as int;
            assert((e * 0) / d == 0) by (nonlinear_arith)
                requires
                    0 < d,
            ;
        }
    }

    /// A mixed pattern that always reads accounts as the random-read pattern
    /// does: it never asks for a write, each read it asks for is the one the
    /// random-read pattern would ask for on the same draw, and the result it
    /// reports is the one the random-read pattern would report. (The two
    /// differ in one action only: the mixed pattern ends with a flush.)
    pub proof fn law_mixed_all_reads_accounts_as_rand_read(
        self,
        ev: WorkerEvent,
        draw: Draw,
    )
        requires
            self.wf(),
            self.spec.mode == Mode::RandRW,
            self.spec.mix.read_parts == self.spec.mix.total_parts,
            self.uses_draw(ev) ==> draw.fits(self.spec),
        ensures
            match self.next(ev, draw).1 {
                WorkerAction::Report(r) => ev is Clock && r == self.with_mode(
                    Mode::RandRead,
                ).result(ev->elapsed_ns),
                WorkerAction::Io(IoOp::Write { offset }) => false,
                WorkerAction::Io(IoOp::Read { offset }) => IoOp::Read { offset }
                    == self.with_mode(Mode::RandRead).next_op(draw),
                _ => true,
            },
    {
        if ev is Clock {
            let e = ev->elapsed_ns as int;
            let d = self.spec.mix.total_parts as int;
            assert((e * d) / d == e) by (nonlinear_arith)
                requires
                    0 < d,
            ;
        }
    }

    /// Place of a phase in the life of a worker.
    pub open spec fn rank(phase: WorkerPhase) -> int {
        match phase {
            WorkerPhase::Idle => 0,
            WorkerPhase::OpenFile => 1,
            WorkerPhase::WaitAtBarrier => 2,
            WorkerPhase::RunPattern => 3,
            WorkerPhase::ReportToAggregator => 4,
            WorkerPhase::Terminate => 5,
        }
    }

    /// A worker goes through its phases in one direction only, and a worker
    /// that has terminated, in success or in failure, does nothing more:
    /// there is no resumption.
    pub proof fn law_phases_only_advance(self, ev: WorkerEvent, draw: Draw)
        requires
            self.wf(),
        ensures
            Self::rank(self.phase) <= Self::rank(self.next(ev, draw).0.phase),
            self.phase == WorkerPhase::Terminate ==> self.next(ev, draw) == (
                self,
                WorkerAction::Ignored,
            ),
            self.next(ev, draw).1 is Fail || self.next(ev, draw).1 == WorkerAction::Exit
                ==> self.next(ev, draw).0.phase == WorkerPhase::Terminate,
    {
    }

    /// The file is opened at most twice: once as the workload asks, and
    /// once more, buffered, where that failed.
    pub proof fn law_at_most_two_opens(self, ev: WorkerEvent, draw: Draw)
        requires
            self.wf(),
        ensures
            self.next(ev, draw).1 is Open ==> self.next(ev, draw).0.attempts == self.attempts + 1
                && self.next(ev, draw).0.attempts <= 2,
            !(self.next(ev, draw).1 is Open) ==> self.next(ev, draw).0.attempts == self.attempts,
            self.next(ev, draw).1 is Open && self.attempts == 1 ==> self.next(ev, draw).1
                == WorkerAction::Open(OpenMode::Buffered),
    {
    }

    /// The same worker as if the workload had asked for the other cache mode
    /// and the file had been opened in `mode` after `attempts` tries.
    pub open spec fn with_open(self, direct_io: bool, attempts: u8, mode: OpenMode) -> WorkerState {
        WorkerState {
            spec: WorkloadSpec { direct_io, ..self.spec },
            attempts,
            opened: Some(mode),
            ..self
        }
    }

    /// A refused first open is followed by one buffered retry, and a retry
    /// that succeeds brings the worker to the barrier like a first success.
    pub proof fn law_fallback_reaches_barrier(self, draw: Draw)
        requires
            self.wf(),
            self.phase == WorkerPhase::OpenFile,
            self.attempts <= 1,
        ensures
            self.next(WorkerEvent::OpenFailed, draw).1 == WorkerAction::Open(OpenMode::Buffered),
            self.next(WorkerEvent::OpenFailed, draw).0.next(WorkerEvent::Opened, draw).1
                == WorkerAction::WaitAtBarrier,
            self.next(WorkerEvent::OpenFailed, draw).0.next(WorkerEvent::Opened, draw).0
                == self.next(WorkerEvent::Opened, draw).0.with_open(
                self.spec.direct_io,
                2,
                OpenMode::Buffered,
            ),
    {
    }

    /// Once the file is open, nothing depends on how it was opened: a worker
    /// that fell back asks for the same actions and reports the same result
    /// as one whose first open succeeded.
    pub proof fn law_run_ignores_open_mode(
        self,
        ev: WorkerEvent,
        draw: Draw,
        direct_io: bool,
        attempts: u8,
        mode: OpenMode,
    )
        requires
            self.wf(),
            self.opened is Some,
            self.phase != WorkerPhase::Idle,
            self.phase != WorkerPhase::OpenFile,
            1 <= attempts <= 2,
        ensures
            self.with_open(direct_io, attempts, mode).wf(),
            self.with_open(direct_io, attempts, mode).next(ev, draw).1 == self.next(ev, draw).1,
            self.with_open(direct_io, attempts, mode).next(ev, draw).0 == self.next(
                ev,
                draw,
            ).0.with_open(direct_io, attempts, mode),
    {
    }
}

impl WorkerResult {
    /// A complete result of one worker of `spec` whose clock read
    /// `elapsed_ns`.
    pub open spec fn settles(self, spec: WorkloadSpec, elapsed_ns: u64) -> bool {
        &&& self.bytes_read + self.bytes_written == spec.worker_bytes()
        &&& self.read_ns + self.write_ns == elapsed_ns
        &&& (spec.mode == Mode::SeqRead || spec.mode == Mode::RandRead ==> self.bytes_written == 0
            && self.write_ns == 0)
        &&& (spec.mode == Mode::SeqWrite || spec.mode == Mode::RandWrite ==> self.bytes_read == 0
            && self.read_ns == 0)
        &&& (spec.mode == Mode::RandRW ==> self.read_ns == spec.mix.read_share(elapsed_ns))
    }

    /// A complete result of one worker of `spec`, whatever its clock read.
    pub open spec fn complete_for(self, spec: WorkloadSpec) -> bool {
        exists|elapsed_ns: u64| self.settles(spec, elapsed_ns)
    }
}

/// The per-thread generator of the `rand` crate. Nothing is known of its
/// contents.
#[verifier::external_type_specification]
#[verifier::external_body]
pub struct ExThreadRng(rand::rngs::ThreadRng);

/// `rand::rng` hands out the calling thread's generator. Nothing is claimed
/// of it.
pub assume_specification[ rand::rng ]() -> (r: ThreadRng)
;

/// `Rng::random_range` on `0..blocks`: some index below `blocks`. The range
/// must not be empty, or the call panics.
#[verifier::external_body]
fn draw_block(rng: &mut ThreadRng, blocks: usize) -> (r: usize)
    requires
        blocks > 0,
    ensures
        r < blocks,
{
    rng.random_range(0..blocks)
}

/// `Rng::random_ratio`: `true` with probability `read_parts / total_parts`.
/// Claimed here is only what holds of every outcome: a ratio of zero never
/// gives `true`, a ratio of one always does. The ratio must be a
/// probability, or the call panics.
#[verifier::external_body]
fn draw_read(rng: &mut ThreadRng, read_parts: u32, total_parts: u32) -> (r: bool)
    requires
        0 < total_parts,
        read_parts <= total_parts,
    ensures
        read_parts == 0 ==> !r,
        read_parts == total_parts ==> r,
{
    rng.random_ratio(read_parts, total_parts)
}

/// A state that is known to be well formed.
struct WellFormed {
    state: WorkerState,
}

impl WellFormed {
    #[verifier::type_invariant]
    spec fn inv(self) -> bool {
        self.state.wf()
    }
}

/// A worker together with the generator it draws offsets from. It must be
/// built on the thread that runs it.
pub struct Worker {
    core: WellFormed,
    rng: ThreadRng,
}

impl View for Worker {
    type V = WorkerState;

    closed spec fn view(&self) -> WorkerState {
        self.core.state
    }
}

impl Worker {

    /// A worker that has not been started. `None` where `tid` is not a
    /// worker of `spec` or `spec` is not a workload.
    pub fn new(spec: WorkloadSpec, tid: usize) -> (r: Option<Worker>)
        ensures
            r is Some <==> spec.wf() && tid < spec.concurrency,
            r is Some ==> r->0@ == WorkerState::initial(spec, tid),
    {
        match WorkerState::new(spec, tid) {
            Some(state) => Some(Worker { core: WellFormed { state }, rng: rand::rng() }),
            None => None,
        }
    }

    /// The state the worker is in.
    pub fn state(&self) -> (r: WorkerState)
        ensures
            r == self@,
            r.wf(),
    {
        proof {
            use_type_invariant(&self.core);
        }
        self.core.state
    }

    /// Takes one step, drawing the coin and the block index where the step
    /// needs them. Whatever was drawn, the step is the one
    /// [`WorkerState::next`] describes for some fitting draw.
    pub fn step(&mut self, ev: WorkerEvent) -> (action: WorkerAction)
        ensures
            final(self)@.wf(),
            exists|draw: Draw|
                (old(self)@.uses_draw(ev) ==> draw.fits(old(self)@.spec)) && (final(self)@, action)
                    == #[trigger] old(self)@.next(ev, draw),
    {
        proof {
            use_type_invariant(&self.core);
        }
        let mut state: WorkerState = self.core.state;
        let mut draw = Draw { read: false, block: 0 };
        if state.wants_draw(ev) {
            proof {
                state.spec.lemma_slice_bounds(0);
            }
            if let Mode::RandRW = state.spec.mode {
                draw.read = draw_read(
                    &mut self.rng,
                    state.spec.mix.read_parts,
                    state.spec.mix.total_parts,
                );
            }
            draw.block = draw_block(&mut self.rng, state.spec.total_blocks());
        }
        let action = state.step(ev, draw);
        self.core = WellFormed { state };
        assert((self@, action) == old(self)@.next(ev, draw));
        action
    }
}

} // verus!
