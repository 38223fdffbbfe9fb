//! The run matrix: cache mode by pattern by block size, and the order in
//! which its cells are evaluated.

use crate::workload::{MixRatio, Mode, OpenMode, SpecError, WorkloadSpec};
use vstd::prelude::*;

verus! {

/// The axes and common parameters of a sweep.
#[derive(Debug, Clone)]
pub struct RunMatrix {
    /// One table per cache mode.
    pub cache_modes: Vec<OpenMode>,
    /// One row per pattern.
    pub modes: Vec<Mode>,
    /// One column per block size, in bytes.
    pub block_sizes: Vec<usize>,
    pub total_size: usize,
    pub concurrency: usize,
    pub mix: MixRatio,
}

/// Position of a cell: table, row and column.
#[derive(Debug, Clone, Copy, PartialEq, Eq, Structural)]
pub struct CellIndex {
    pub table: usize,
    pub row: usize,
    pub column: usize,
}

impl RunMatrix {
    /// Whether `at` is a cell of the matrix.
    pub open spec fn contains(&self, at: CellIndex) -> bool {
        &&& at.table < self.cache_modes@.len()
        &&& at.row < self.modes@.len()
        &&& at.column < self.block_sizes@.len()
    }

    /// Number of cells.
    pub open spec fn cells(&self) -> int {
        (self.cache_modes@.len() * self.modes@.len() * self.block_sizes@.len()) as int
    }

    /// Place of a cell in the order of evaluation: tables one after the
    /// other, in each its rows, in each row its columns.
    pub open spec fn ordinal(&self, at: CellIndex) -> int {
        (at.table * self.modes@.len() + at.row) * self.block_sizes@.len() + at.column
    }

    /// The cell evaluated after `at`, if any.
    pub open spec fn successor(&self, at: CellIndex) -> Option<CellIndex> {
        if !self.contains(at) {
            None
        } else if at.column + 1 < self.block_sizes@.len() {
            Some(CellIndex { column: (at.column + 1) as usize, ..at })
        } else if at.row + 1 < self.modes@.len() {
            Some(CellIndex { row: (at.row + 1) as usize, column: 0, ..at })
        } else if at.table + 1 < self.cache_modes@.len() {
            Some(CellIndex { table: (at.table + 1) as usize, row: 0, column: 0 })
        } else {
            None
        }
    }

    /// The workload of the cell at `at`, or why its parameters are none.
    pub open spec fn workload(&self, at: CellIndex) -> Result<WorkloadSpec, SpecError> {
        WorkloadSpec::checked(
            self.block_sizes@[at.column as int],
            self.total_size,
            self.modes@[at.row as int],
            self.concurrency,
            self.cache_modes@[at.table as int] == OpenMode::Direct,
            self.mix,
        )
    }

    /// The matrix that is swept when nothing else is configured: buffered
    /// and direct I/O; all five patterns; blocks of 4 KiB, 64 KiB,
    /// 512 KiB and 1 MiB; a file of 256 MiB; four workers; reads and writes
    /// mixed evenly.
    pub fn standard() -> (m: RunMatrix)
        ensures
            m.cache_modes@ == seq![OpenMode::Buffered, OpenMode::Direct],
            m.modes@ == seq![
                Mode::SeqRead,
                Mode::SeqWrite,
                Mode::RandRead,
                Mode::RandWrite,
                Mode::RandRW,
            ],
            m.block_sizes@ == seq![4096usize, 65536usize, 524288usize, 1048576usize],
            m.total_size == 268_435_456,
            m.concurrency == 4,
            m.mix == (MixRatio { read_parts: 1, total_parts: 2 }),
    {
        RunMatrix {
            cache_modes: vec![OpenMode::Buffered, OpenMode::Direct],
            modes: vec![
                Mode::SeqRead,
                Mode::SeqWrite,
                Mode::RandRead,
                Mode::RandWrite,
                Mode::RandRW,
            ],
            block_sizes: vec![4096, 65536, 524288, 1048576],
            total_size: 268_435_456,
            concurrency: 4,
            mix: MixRatio::even(),
        }
    }

    /// The first cell, unless an axis is empty.
    pub fn first(&self) -> (r: Option<CellIndex>)
        ensures
            r is Some <==> self.cells() > 0,
            r is Some ==> r->0 == (CellIndex { table: 0, row: 0, column: 0 }) && self.contains(
                r->0,
            ),
    {
        proof {
            let a = self.cache_modes@.len() as int;
            let b = self.modes@.len() as int;
            let c = self.block_sizes@.len() as int;
            assert(a * b * c > 0 <==> a > 0 && b > 0 && c > 0) by (nonlinear_arith)
                requires
                    a >= 0,
                    b >= 0,
                    c >= 0,
            ;
        }
        if self.cache_modes.len() > 0 && self.modes.len() > 0 && self.block_sizes.len() > 0 {
            Some(CellIndex { table: 0, row: 0, column: 0 })
        } else {
            None
        }
    }

    /// The cell to evaluate after `at`. `None` after the last cell, and for
    /// a position outside the matrix.
    pub fn after(&self, at: CellIndex) -> (r: Option<CellIndex>)
        ensures
            r == self.successor(at),
    {
        if at.table >= self.cache_modes.len() || at.row >= self.modes.len() || at.column
            >= self.block_sizes.len() {
            None
        } else if at.column + 1 < self.block_sizes.len() {
            Some(CellIndex { table: at.table, row: at.row, column: at.column + 1 })
        } else if at.row + 1 < self.modes.len() {
            Some(CellIndex { table: at.table, row: at.row + 1, column: 0 })
        } else if at.table + 1 < self.cache_modes.len() {
            Some(CellIndex { table: at.table + 1, row: 0, column: 0 })
        } else {
            None
        }
    }

    /// Whether the cell at `at` is the last of its row: the row is
    /// complete once it is done.
    pub fn ends_row(&self, at: CellIndex) -> (r: bool)
        ensures
            r == (self.contains(at) && at.column + 1 == self.block_sizes@.len()),
    {
        at.table < self.cache_modes.len() && at.row < self.modes.len() && at.column
            < self.block_sizes.len() && at.column + 1 == self.block_sizes.len()
    }

    /// Whether the cell at `at` is the last of its table: the table can be
    /// printed once it is done.
    pub fn ends_table(&self, at: CellIndex) -> (r: bool)
        ensures
            r == (self.contains(at) && at.row + 1 == self.modes@.len() && at.column + 1
                == self.block_sizes@.len()),
    {
        self.ends_row(at) && at.row == self.modes.len() - 1
    }

    /// The workload of the cell at `at`. `None` for a position outside the
    /// matrix; an error where the parameters of the cell are no workload.
    pub fn workload_at(&self, at: CellIndex) -> (r: Option<Result<WorkloadSpec, SpecError>>)
        ensures
            r is Some <==> self.contains(at),
            r is Some ==> r->0 == self.workload(at),
            r is Some && r->0 is Ok ==> r->0->Ok_0.wf(),
    {
        if at.table >= self.cache_modes.len() || at.row >= self.modes.len() || at.column
            >= self.block_sizes.len() {
            return None;
        }
        let direct: bool = match self.cache_modes[at.table] {
            OpenMode::Direct => true,
            OpenMode::Buffered => false,
        };
        Some(
            WorkloadSpec::new(
                self.block_sizes[at.column],
                self.total_size,
                self.modes[at.row],
                self.concurrency,
                direct,
                self.mix,
            ),
        )
    }

    /// The cells are evaluated one at a time, each exactly once: the
    /// successor of a cell is a cell of the matrix and comes next in the
    /// order, and only the last cell has none.
    pub proof fn law_sweep_order(&self, at: CellIndex)
        requires
            self.contains(at),
        ensures
            0 <= self.ordinal(at) < self.cells(),
            self.successor(at) is Some ==> self.contains(self.successor(at)->0) && self.ordinal(
                self.successor(at)->0,
            ) == self.ordinal(at) + 1,
            self.successor(at) is None <==> self.ordinal(at) == self.cells() - 1,
            self.ordinal(CellIndex { table: 0, row: 0, column: 0 }) == 0,
    {
        let a = self.cache_modes@.len() as int;
        let b = self.modes@.len() as int;
        let c = self.block_sizes@.len() as int;
        assert(a == self.cache_modes.len() && b == self.modes.len() && c
            == self.block_sizes.len());
        let t = at.table as int;
        let r = at.row as int;
        let k = at.column as int;
        assert(0 <= t * b + r && t * b + r <= a * b - 1) by (nonlinear_arith)
            requires
                0 <= t < a,
                0 <= r < b,
        ;
        let n = t * b + r;
        assert(0 <= n * c + k && n * c + k <= a * b * c - 1 && (n * c + k == a * b * c - 1 ==> n
            == a * b - 1 && k == c - 1)) by (nonlinear_arith)
            requires
                0 <= n <= a * b - 1,
                0 <= k < c,
        ;
        assert(n == a * b - 1 ==> t == a - 1 && r == b - 1) by (nonlinear_arith)
            requires
                n == t * b + r,
                0 <= t < a,
                0 <= r < b,
        ;
        assert((t * b + (r + 1)) * c + 0 == (t * b + r) * c + (c - 1) + 1) by (nonlinear_arith);
        assert(((t + 1) * b + 0) * c + 0 == (t * b + (b - 1)) * c + (c - 1) + 1) by (
            nonlinear_arith);
        assert((0 * b + 0) * c + 0 == 0) by (nonlinear_arith);
        assert((a - 1) * b + (b - 1) == a * b - 1 && (a * b - 1) * c + (c - 1) == a * b * c - 1)
            by (nonlinear_arith);
    }
}

} // verus!
