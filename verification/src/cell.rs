//! One matrix cell from provisioning to cleanup, as a state machine.
//!
//! The caller creates and removes the backing file and runs the workers; the
//! cell decides what is done next and what the table shows.

use crate::aggregate::AggregateResult;
use crate::errors::BenchError;
use crate::metrics::{bytes_moved, law_rates_are_exact, rates_of, DerivedMetrics};
use crate::workload::WorkloadSpec;
use vstd::prelude::*;

verus! {

#[derive(Debug, Clone, Copy, PartialEq, Eq, Structural)]
pub enum CellPhase {
    /// Nothing has been asked for yet.
    Fresh,
    /// The backing file is being written.
    Provision,
    /// The workers are running.
    Run,
    /// The backing file is being removed.
    Cleanup,
    /// The outcome has been handed out.
    Done,
}

/// What the table shows for a cell: its rates, or why there are none.
#[derive(Debug, Clone, Copy, PartialEq, Eq, Structural)]
pub enum CellOutcome {
    Measured(DerivedMetrics),
    Failed(BenchError),
}

/// What the caller observed since the last action.
#[derive(Debug, Clone, Copy, PartialEq, Eq, Structural)]
pub enum CellEvent {
    /// The driver has reached this cell.
    Start,
    /// The backing file was written and flushed.
    Provisioned,
    /// The backing file could not be created, written or flushed.
    ProvisionFailed,
    /// All workers were joined and every one had reported.
    Joined(AggregateResult),
    /// All workers were joined and at least one had failed.
    WorkerFailed(BenchError),
    /// The backing file was removed.
    Removed,
    /// The backing file could not be removed.
    RemoveFailed,
}

/// What the caller is to do next.
#[derive(Debug, Clone, Copy, PartialEq, Eq, Structural)]
pub enum CellAction {
    /// Create or truncate the backing file, write `blocks` zero-filled
    /// buffers of `block_size` bytes and flush them.
    Provision { blocks: usize, block_size: usize },
    /// Start `concurrency` workers behind one barrier and join them all.
    RunWorkers { concurrency: usize },
    /// Remove the backing file.
    Remove,
    /// Enter `outcome` in the table. `cleanup_failed` asks for a log line.
    Finish { outcome: CellOutcome, cleanup_failed: bool },
    /// The event does not fit the current phase; nothing changed.
    Ignored,
}

/// State of one cell.
#[derive(Debug, Clone, Copy, PartialEq, Eq, Structural)]
pub struct CellRun {
    pub spec: WorkloadSpec,
    pub phase: CellPhase,
    /// What the table will show, once it is known.
    pub outcome: Option<CellOutcome>,
}

impl CellRun {
    /// A cell that has not begun.
    pub open spec fn initial(spec: WorkloadSpec) -> CellRun {
        CellRun { spec, phase: CellPhase::Fresh, outcome: None }
    }

    /// The rates of a run that ended with the totals `a`.
    pub open spec fn measured(self, a: AggregateResult) -> CellOutcome {
        CellOutcome::Measured(rates_of(a, self.spec.block_size))
    }

    /// The transition function. A failure of provisioning or of a worker
    /// costs the cell its result and nothing else: the file is still
    /// removed, and the sweep goes on. A failure to remove the file leaves
    /// the outcome as it was.
    pub open spec fn next(self, ev: CellEvent) -> (CellRun, CellAction) {
        match (self.phase, ev) {
            (CellPhase::Fresh, CellEvent::Start) => (
                CellRun { phase: CellPhase::Provision, ..self },
                CellAction::Provision {
                    blocks: self.spec.blocks() as usize,
                    block_size: self.spec.block_size,
                },
            ),
            (CellPhase::Provision, CellEvent::Provisioned) => (
                CellRun { phase: CellPhase::Run, ..self },
                CellAction::RunWorkers { concurrency: self.spec.concurrency },
            ),
            (CellPhase::Provision, CellEvent::ProvisionFailed) => (
                CellRun {
                    phase: CellPhase::Cleanup,
                    outcome: Some(CellOutcome::Failed(BenchError::Provision)),
                    ..self
                },
                CellAction::Remove,
            ),
            (CellPhase::Run, CellEvent::Joined(a)) => (
                CellRun { phase: CellPhase::Cleanup, outcome: Some(self.measured(a)), ..self },
                CellAction::Remove,
            ),
            (CellPhase::Run, CellEvent::WorkerFailed(e)) => (
                CellRun {
                    phase: CellPhase::Cleanup,
                    outcome: Some(CellOutcome::Failed(e)),
                    ..self
                },
                CellAction::Remove,
            ),
            (CellPhase::Cleanup, CellEvent::Removed) => (
                CellRun { phase: CellPhase::Done, ..self },
                CellAction::Finish { outcome: self.outcome->0, cleanup_failed: false },
            ),
            (CellPhase::Cleanup, CellEvent::RemoveFailed) => (
                CellRun { phase: CellPhase::Done, ..self },
                CellAction::Finish { outcome: self.outcome->0, cleanup_failed: true },
            ),
            _ => (self, CellAction::Ignored),
        }
    }

    /// The outcome is known from the moment the cleanup begins.
    pub open spec fn wf(self) -> bool {
        &&& self.spec.wf()
        &&& (self.phase == CellPhase::Cleanup || self.phase == CellPhase::Done
            <==> self.outcome is Some)
    }

    /// A cell that has not begun. `None` where `spec` is not a workload.
    pub fn new(spec: WorkloadSpec) -> (r: Option<CellRun>)
        ensures
            r is Some <==> spec.wf(),
            r is Some ==> r->0 == Self::initial(spec) && r->0.wf(),
    {
        if spec.is_valid() {
            Some(CellRun { spec, phase: CellPhase::Fresh, outcome: None })
        } else {
            None
        }
    }

    /// Takes one step of the state machine.
    pub fn step(&mut self, ev: CellEvent) -> (action: CellAction)
        requires
            old(self).wf(),
        ensures
            (*final(self), action) == old(self).next(ev),
            final(self).wf(),
    {
        match (self.phase, ev) {
            (CellPhase::Fresh, CellEvent::Start) => {
                self.phase = CellPhase::Provision;
                CellAction::Provision {
                    blocks: self.spec.total_blocks(),
                    block_size: self.spec.block_size,
                }
            },
            (CellPhase::Provision, CellEvent::Provisioned) => {
                self.phase = CellPhase::Run;
                CellAction::RunWorkers { concurrency: self.spec.concurrency }
            },
            (CellPhase::Provision, CellEvent::ProvisionFailed) => {
                self.phase = CellPhase::Cleanup;
                self.outcome = Some(CellOutcome::Failed(BenchError::Provision));
                CellAction::Remove
            },
            (CellPhase::Run, CellEvent::Joined(a)) => {
                let m = DerivedMetrics::compute(&a, self.spec.block_size);
                self.phase = CellPhase::Cleanup;
                self.outcome = Some(CellOutcome::Measured(m));
                CellAction::Remove
            },
            (CellPhase::Run, CellEvent::WorkerFailed(e)) => {
                self.phase = CellPhase::Cleanup;
                self.outcome = Some(CellOutcome::Failed(e));
                CellAction::Remove
            },
            (CellPhase::Cleanup, CellEvent::Removed) => {
                self.phase = CellPhase::Done;
                match self.outcome {
                    Some(outcome) => CellAction::Finish { outcome, cleanup_failed: false },
                    None => CellAction::Ignored,
                }
            },
            (CellPhase::Cleanup, CellEvent::RemoveFailed) => {
                self.phase = CellPhase::Done;
                match self.outcome {
                    Some(outcome) => CellAction::Finish { outcome, cleanup_failed: true },
                    None => CellAction::Ignored,
                }
            },
            _ => CellAction::Ignored,
        }
    }

    /// Every step leads from a well-formed state to a well-formed state.
    pub proof fn law_next_keeps_wf(self, ev: CellEvent)
        requires
            self.wf(),
        ensures
            self.next(ev).0.wf(),
            self.next(ev).0.spec == self.spec,
    {
    }

    /// A cell that is done does nothing more, and no failure makes a cell
    /// start over: every cell is provisioned once and run at most once.
    pub proof fn law_done_stays_done(self, ev: CellEvent)
        requires
            self.wf(),
        ensures
            self.phase == CellPhase::Done ==> self.next(ev) == (self, CellAction::Ignored),
            self.next(ev).1 is Provision ==> self.phase == CellPhase::Fresh && self.next(
                ev,
            ).0.phase == CellPhase::Provision,
            self.next(ev).0.phase == CellPhase::Fresh ==> self.phase == CellPhase::Fresh,
    {
    }

    /// The outcome of a cell is its rates where the file was provisioned
    /// and every worker reported, and the failure otherwise.
    pub proof fn law_outcome_follows_events(self, ev: CellEvent)
        requires
            self.wf(),
            self.next(ev).1 == CellAction::Remove,
        ensures
            match ev {
                CellEvent::ProvisionFailed => self.next(ev).0.outcome == Some(
                    CellOutcome::Failed(BenchError::Provision),
                ),
                CellEvent::WorkerFailed(e) => self.next(ev).0.outcome == Some(
                    CellOutcome::Failed(e),
                ),
                CellEvent::Joined(a) => self.next(ev).0.outcome == Some(self.measured(a)),
                _ => false,
            },
    {
    }

    /// A cell whose workers moved bytes shows rates above zero, and a cell
    /// whose workers moved none shows rates of zero.
    pub proof fn law_measured_rates_follow_bytes(self, a: AggregateResult)
        requires
            self.wf(),
        ensures
            self.measured(a) is Measured,
            self.measured(a)->Measured_0.throughput_bytes_per_sec.positive() <==> bytes_moved(a)
                > 0,
            self.measured(a)->Measured_0.ops_per_sec.positive() <==> bytes_moved(a) > 0,
    {
        law_rates_are_exact(a, self.spec.block_size);
    }

    /// The workers run on a freshly provisioned file and on nothing else:
    /// they are started only in answer to a successful provisioning, and a
    /// cell asks for its provisioning first.
    pub proof fn law_runs_start_from_provisioned_file(self, ev: CellEvent)
        requires
            self.wf(),
        ensures
            self.next(ev).1 is RunWorkers ==> self.phase == CellPhase::Provision && ev
                == CellEvent::Provisioned,
            Self::initial(self.spec).next(CellEvent::Start).1 == (CellAction::Provision {
                blocks: self.spec.blocks() as usize,
                block_size: self.spec.block_size,
            }),
            self.next(ev).1 is Provision ==> self.phase == CellPhase::Fresh,
    {
    }

    /// A cell is finished only after the removal of its backing file was
    /// tried, and a failed removal changes nothing in what the table shows.
    pub proof fn law_cleanup_before_finish(self, ev: CellEvent)
        requires
            self.wf(),
        ensures
            self.next(ev).1 is Finish ==> self.phase == CellPhase::Cleanup && (ev
                == CellEvent::Removed || ev == CellEvent::RemoveFailed),
            self.next(ev).1 is Finish ==> self.next(ev).1->outcome == self.outcome->0 && (
            self.next(ev).1->cleanup_failed <==> ev == CellEvent::RemoveFailed),
            self.phase == CellPhase::Cleanup ==> self.next(CellEvent::Removed).1->outcome
                == self.next(CellEvent::RemoveFailed).1->outcome,
    {
    }
}

} // verus!
