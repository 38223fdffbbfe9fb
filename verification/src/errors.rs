//! Failure taxonomy of a benchmark run.

use vstd::prelude::*;

verus! {

/// What can go wrong while one matrix cell is evaluated.
#[derive(Debug, Clone, Copy, PartialEq, Eq, Structural)]
pub enum BenchError {
    /// The backing file could not be created, written or flushed.
    Provision,
    /// A worker could not open the backing file at all, not even buffered.
    Open,
    /// A seek, read, write or flush failed in the middle of a run.
    Io,
    /// The backing file could not be removed after the run.
    Cleanup,
}

impl BenchError {
    /// Every failure but a failed cleanup costs the cell its result.
    pub open spec fn fails_cell(self) -> bool {
        self != BenchError::Cleanup
    }

    /// Whether the failure costs the cell its result.
    pub fn is_fatal_to_cell(&self) -> (r: bool)
        ensures
            r == self.fails_cell(),
    {
        match self {
            BenchError::Cleanup => false,
            _ => true,
        }
    }

    /// Marker shown in the table slot of a failed cell.
    pub fn marker(&self) -> (r: &'static str)
        ensures
            r@ == self.marker_text(),
    {
        match self {
            BenchError::Provision => "ERR:provision",
            BenchError::Open => "ERR:open",
            BenchError::Io => "ERR:io",
            BenchError::Cleanup => "ERR:cleanup",
        }
    }

    /// The marker of each failure.
    pub open spec fn marker_text(self) -> Seq<char> {
        match self {
            BenchError::Provision => "ERR:provision"@,
            BenchError::Open => "ERR:open"@,
            BenchError::Io => "ERR:io"@,
            BenchError::Cleanup => "ERR:cleanup"@,
        }
    }
}

} // verus!
