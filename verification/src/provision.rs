//! Provisioning of the backing file, as a state machine.
//!
//! Before every run the file is created anew, or truncated, and filled with
//! zeros block by block; then it is flushed to stable storage.

use crate::errors::BenchError;
use crate::workload::WorkloadSpec;
use vstd::prelude::*;

verus! {

#[derive(Debug, Clone, Copy, PartialEq, Eq, Structural)]
pub enum ProvisionPhase {
    /// Nothing has been asked for yet.
    Fresh,
    /// The file is being created or truncated.
    Create,
    /// Zeros are being written.
    Fill,
    /// The file is being flushed.
    Flush,
    /// The file is ready.
    Done,
    /// A step failed; nothing more is asked for.
    Failed,
}

/// What the caller observed since the last action.
#[derive(Debug, Clone, Copy, PartialEq, Eq, Structural)]
pub enum ProvisionEvent {
    Start,
    /// What was asked for succeeded.
    Completed,
    /// What was asked for failed.
    Refused,
}

/// What the caller is to do next.
#[derive(Debug, Clone, Copy, PartialEq, Eq, Structural)]
pub enum ProvisionAction {
    /// Create the file for writing, truncating it if it exists.
    Create,
    /// Append `len` zero bytes.
    WriteZeros { len: usize },
    /// Flush the file to stable storage and close it.
    Flush,
    /// The file is ready.
    Ready,
    /// Give up: the cell has failed.
    Fail(BenchError),
    /// The event does not fit the current phase; nothing changed.
    Ignored,
}

/// State of the provisioning of one backing file.
#[derive(Debug, Clone, Copy, PartialEq, Eq, Structural)]
pub struct Provisioner {
    pub spec: WorkloadSpec,
    pub phase: ProvisionPhase,
    /// Blocks whose writing has been asked for.
    pub written: usize,
}

impl Provisioner {
    /// A provisioning that has not begun.
    pub open spec fn initial(spec: WorkloadSpec) -> Provisioner {
        Provisioner { spec, phase: ProvisionPhase::Fresh, written: 0 }
    }

    /// Bytes whose writing has been asked for.
    pub open spec fn bytes(self) -> int {
        self.written * self.spec.block_size
    }

    /// Next request once the last one succeeded: the remaining blocks, then
    /// the flush.
    pub open spec fn advance(self) -> (Provisioner, ProvisionAction) {
        if self.written < self.spec.blocks() {
            (
                Provisioner {
                    phase: ProvisionPhase::Fill,
                    written: (self.written + 1) as usize,
                    ..self
                },
                ProvisionAction::WriteZeros { len: self.spec.block_size },
            )
        } else {
            (Provisioner { phase: ProvisionPhase::Flush, ..self }, ProvisionAction::Flush)
        }
    }

    /// The transition function. Any failure ends the provisioning.
    pub open spec fn next(self, ev: ProvisionEvent) -> (Provisioner, ProvisionAction) {
        match (self.phase, ev) {
            (ProvisionPhase::Fresh, ProvisionEvent::Start) => (
                Provisioner { phase: ProvisionPhase::Create, ..self },
                ProvisionAction::Create,
            ),
            (ProvisionPhase::Create, ProvisionEvent::Completed) => self.advance(),
            (ProvisionPhase::Fill, ProvisionEvent::Completed) => self.advance(),
            (ProvisionPhase::Flush, ProvisionEvent::Completed) => (
                Provisioner { phase: ProvisionPhase::Done, ..self },
                ProvisionAction::Ready,
            ),
            (ProvisionPhase::Create, ProvisionEvent::Refused)
            | (ProvisionPhase::Fill, ProvisionEvent::Refused)
            | (ProvisionPhase::Flush, ProvisionEvent::Refused) => (
                Provisioner { phase: ProvisionPhase::Failed, ..self },
                ProvisionAction::Fail(BenchError::Provision),
            ),
            _ => (self, ProvisionAction::Ignored),
        }
    }

    /// What holds of every state a provisioning can be in.
    pub open spec fn wf(self) -> bool {
        &&& self.spec.wf()
        &&& self.written <= self.spec.blocks()
        &&& (self.phase == ProvisionPhase::Fresh || self.phase == ProvisionPhase::Create
            ==> self.written == 0)
        &&& (self.phase == ProvisionPhase::Flush || self.phase == ProvisionPhase::Done
            ==> self.written == self.spec.blocks())
        &&& (self.phase == ProvisionPhase::Fill ==> self.written > 0)
    }

    /// A provisioning that has not begun. `None` where `spec` is not a
    /// workload.
    pub fn new(spec: WorkloadSpec) -> (r: Option<Provisioner>)
        ensures
            r is Some <==> spec.wf(),
            r is Some ==> r->0 == Self::initial(spec) && r->0.wf(),
    {
        if spec.is_valid() {
            proof {
                spec.lemma_slice_bounds(0);
            }
            Some(Provisioner { spec, phase: ProvisionPhase::Fresh, written: 0 })
        } else {
            None
        }
    }

    fn advance_exec(&mut self) -> (action: ProvisionAction)
        requires
            old(self).wf(),
            old(self).phase == ProvisionPhase::Create || old(self).phase == ProvisionPhase::Fill,
        ensures
            (*final(self), action) == old(self).advance(),
            final(self).wf(),
    {
        if self.written < self.spec.total_blocks() {
            self.phase = ProvisionPhase::Fill;
            self.written = self.written + 1;
            ProvisionAction::WriteZeros { len: self.spec.block_size }
        } else {
            self.phase = ProvisionPhase::Flush;
            ProvisionAction::Flush
        }
    }

    /// Takes one step of the state machine.
    pub fn step(&mut self, ev: ProvisionEvent) -> (action: ProvisionAction)
        requires
            old(self).wf(),
        ensures
            (*final(self), action) == old(self).next(ev),
            final(self).wf(),
    {
        match (self.phase, ev) {
            (ProvisionPhase::Fresh, ProvisionEvent::Start) => {
                self.phase = ProvisionPhase::Create;
                ProvisionAction::Create
            },
            (ProvisionPhase::Create, ProvisionEvent::Completed) => self.advance_exec(),
            (ProvisionPhase::Fill, ProvisionEvent::Completed) => self.advance_exec(),
            (ProvisionPhase::Flush, ProvisionEvent::Completed) => {
                self.phase = ProvisionPhase::Done;
                ProvisionAction::Ready
            },
            (ProvisionPhase::Create, ProvisionEvent::Refused) => {
                self.phase = ProvisionPhase::Failed;
                ProvisionAction::Fail(BenchError::Provision)
            },
            (ProvisionPhase::Fill, ProvisionEvent::Refused) => {
                self.phase = ProvisionPhase::Failed;
                ProvisionAction::Fail(BenchError::Provision)
            },
            (ProvisionPhase::Flush, ProvisionEvent::Refused) => {
                self.phase = ProvisionPhase::Failed;
                ProvisionAction::Fail(BenchError::Provision)
            },
            _ => ProvisionAction::Ignored,
        }
    }

    /// Every step leads from a well-formed state to a well-formed state.
    pub proof fn law_next_keeps_wf(self, ev: ProvisionEvent)
        requires
            self.wf(),
        ensures
            self.next(ev).0.wf(),
            self.next(ev).0.spec == self.spec,
    {
    }

    /// A provisioning that is done or has failed asks for nothing more: the
    /// first failure is final.
    pub proof fn law_end_is_final(self, ev: ProvisionEvent)
        requires
            self.wf(),
        ensures
            self.phase == ProvisionPhase::Done || self.phase == ProvisionPhase::Failed
                ==> self.next(ev) == (self, ProvisionAction::Ignored),
            ev == ProvisionEvent::Refused && self.phase != ProvisionPhase::Fresh && self.phase
                != ProvisionPhase::Done && self.phase != ProvisionPhase::Failed ==> self.next(ev).1
                == ProvisionAction::Fail(BenchError::Provision),
    {
    }

    /// The file is declared ready only after the flush succeeded, and it
    /// then holds exactly `blocks * block_size` zero bytes: whatever a
    /// previous run left in it is gone.
    pub proof fn law_ready_file_is_whole(self, ev: ProvisionEvent)
        requires
            self.wf(),
        ensures
            self.next(ev).1 == ProvisionAction::Ready ==> self.phase == ProvisionPhase::Flush && ev
                == ProvisionEvent::Completed && self.bytes() == self.spec.provisioned(),
            self.next(ev).1 == ProvisionAction::Flush ==> self.bytes() == self.spec.provisioned(),
            self.next(ev).1 is WriteZeros ==> self.next(ev).0.bytes() == self.bytes()
                + self.spec.block_size && self.next(ev).1->len == self.spec.block_size,
            self.next(ev).1 == ProvisionAction::Create ==> self.bytes() == 0,
    {
        let s = self.spec.block_size as int;
        let w = self.written as int;
        assert((w + 1) * s == w * s + s) by (nonlinear_arith);
        assert(0 * s == 0) by (nonlinear_arith);
    }
}

} // verus!
