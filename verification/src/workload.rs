//! Workload descriptors and the slicing of a backing file among workers.

use vstd::prelude::*;

verus! {

/// Access pattern of one benchmark run.
#[derive(Debug, Clone, Copy, PartialEq, Eq, Structural)]
pub enum Mode {
    SeqRead,
    SeqWrite,
    RandRead,
    RandWrite,
    RandRW,
}

impl Mode {
    /// Sequential patterns walk a contiguous slice owned by one worker.
    pub open spec fn sequential(self) -> bool {
        self == Mode::SeqRead || self == Mode::SeqWrite
    }

    /// Patterns that issue writes end with one durable flush.
    pub open spec fn flushes(self) -> bool {
        self == Mode::SeqWrite || self == Mode::RandWrite || self == Mode::RandRW
    }

    /// Tells whether the pattern is sequential.
    pub fn is_sequential(&self) -> (r: bool)
        ensures
            r == self.sequential(),
    {
        match self {
            Mode::SeqRead => true,
            Mode::SeqWrite => true,
            _ => false,
        }
    }

    /// Tells whether the pattern ends with a flush.
    pub fn needs_flush(&self) -> (r: bool)
        ensures
            r == self.flushes(),
    {
        match self {
            Mode::SeqWrite => true,
            Mode::RandWrite => true,
            Mode::RandRW => true,
            _ => false,
        }
    }
}

/// How the backing file is opened.
#[derive(Debug, Clone, Copy, PartialEq, Eq, Structural)]
pub enum OpenMode {
    /// Bypass the page cache.
    Direct,
    /// Ordinary cached I/O.
    Buffered,
}

/// Probability of a read in the mixed pattern, as `read_parts / total_parts`.
#[derive(Debug, Clone, Copy, PartialEq, Eq, Structural)]
pub struct MixRatio {
    pub read_parts: u32,
    pub total_parts: u32,
}

impl MixRatio {
    /// A ratio denotes a probability: the denominator is positive and the
    /// numerator does not exceed it.
    pub open spec fn wf(&self) -> bool {
        0 < self.total_parts && self.read_parts <= self.total_parts
    }

    /// `Some` exactly for ratios in `[0, 1]`.
    pub fn new(read_parts: u32, total_parts: u32) -> (r: Option<MixRatio>)
        ensures
            r is Some <==> (0 < total_parts && read_parts <= total_parts),
            r is Some ==> r->0.read_parts == read_parts && r->0.total_parts == total_parts
                && r->0.wf(),
    {
        if total_parts == 0 || read_parts > total_parts {
            None
        } else {
            Some(MixRatio { read_parts, total_parts })
        }
    }

    /// Reads and writes equally likely.
    pub fn even() -> (r: MixRatio)
        ensures
            r.read_parts == 1,
            r.total_parts == 2,
            r.wf(),
    {
        MixRatio { read_parts: 1, total_parts: 2 }
    }

    /// Share of `elapsed` attributed to reads: `elapsed * read_parts /
    /// total_parts`, rounded down.
    pub open spec fn read_share(&self, elapsed: u64) -> int {
        (elapsed as int * self.read_parts as int) / (self.total_parts as int)
    }

    /// Splits a measured duration between reads and writes in proportion to
    /// the ratio. The two parts always add up to `elapsed`.
    pub fn apportion(&self, elapsed: u64) -> (r: (u64, u64))
        requires
            self.wf(),
        ensures
            r.0 as int == self.read_share(elapsed),
            r.1 as int == elapsed as int - self.read_share(elapsed),
            self.read_parts == 0 ==> r.0 == 0 && r.1 == elapsed,
            self.read_parts == self.total_parts ==> r.0 == elapsed && r.1 == 0,
    {
        assert(elapsed as int * self.read_parts as int <= 0xffff_ffff_ffff_ffff * 0xffff_ffff)
            by (nonlinear_arith)
            requires
                0 <= elapsed <= 0xffff_ffff_ffff_ffff,
                0 <= self.read_parts <= 0xffff_ffff,
        ;
        let num: u128 = (elapsed as u128) * (self.read_parts as u128);
        let den: u128 = self.total_parts as u128;
        let q: u128 = num / den;
        proof {
            let e = elapsed as int;
            let n = self.read_parts as int;
            let d = self.total_parts as int;
            assert(0 <= e * n <= e * d) by (nonlinear_arith)
                requires
                    0 <= e,
                    0 <= n <= d,
            ;
            assert((e * n) / d <= e) by (nonlinear_arith)
                requires
                    0 <= e * n <= e * d,
                    0 < d,
            ;
            assert(0 <= (e * n) / d) by (nonlinear_arith)
                requires
                    0 <= e * n,
                    0 < d,
            ;
            if n == 0 {
                assert(e * n == 0) by (nonlinear_arith)
                    requires
                        n == 0,
                ;
            }
            if n == d {
                assert((e * n) / d == e) by (nonlinear_arith)
                    requires
                        n == d,
                        0 < d,
                ;
            }
        }
        let reads: u64 = q as u64;
        (reads, elapsed - reads)
    }
}

/// Why a parameter set is not a workload.
#[derive(Debug, Clone, Copy, PartialEq, Eq, Structural)]
pub enum SpecError {
    /// `block_size` is zero.
    ZeroBlockSize,
    /// `concurrency` is zero.
    ZeroConcurrency,
    /// The mix ratio is not a probability.
    InvalidMix,
    /// A sequential pattern with fewer blocks than workers: some worker
    /// would get an empty slice.
    TooFewBlocks,
}

/// Parameters of one benchmark run. Immutable once built.
#[derive(Debug, Clone, Copy, PartialEq, Eq, Structural)]
pub struct WorkloadSpec {
    /// Bytes moved by one operation.
    pub block_size: usize,
    /// Requested size of the backing file, in bytes.
    pub total_size: usize,
    pub mode: Mode,
    /// Number of workers.
    pub concurrency: usize,
    /// Ask for cache-bypassing opens (with fallback to buffered).
    pub direct_io: bool,
    /// Read probability of the mixed pattern.
    pub mix: MixRatio,
}

impl WorkloadSpec {
    /// Whole blocks that fit in the requested size.
    pub open spec fn blocks(&self) -> int {
        self.total_size as int / self.block_size as int
    }

    /// Blocks each worker touches; the remainder of the division is unused.
    pub open spec fn per_worker(&self) -> int {
        self.blocks() / self.concurrency as int
    }

    /// Bytes each worker moves.
    pub open spec fn worker_bytes(&self) -> int {
        self.per_worker() * self.block_size as int
    }

    /// Size of the backing file as provisioned: whole blocks only.
    pub open spec fn provisioned(&self) -> int {
        self.blocks() * self.block_size as int
    }

    /// First byte of worker `tid`'s slice under a sequential pattern.
    pub open spec fn slice_start(&self, tid: int) -> int {
        tid * self.per_worker() * self.block_size as int
    }

    /// One past the last byte of worker `tid`'s slice.
    pub open spec fn slice_end(&self, tid: int) -> int {
        self.slice_start(tid) + self.worker_bytes()
    }

    /// What makes a parameter set a workload: blocks and workers are not
    /// none, the ratio is a probability, and a sequential pattern has a block
    /// for every worker.
    pub open spec fn wf(&self) -> bool {
        &&& self.block_size > 0
        &&& self.concurrency > 0
        &&& self.mix.wf()
        &&& (self.mode.sequential() ==> self.blocks() >= self.concurrency)
    }

    /// Validates the parameters. They are examined in the order of the
    /// variants of [`SpecError`]; the first fault is reported.
    pub fn new(
        block_size: usize,
        total_size: usize,
        mode: Mode,
        concurrency: usize,
        direct_io: bool,
        mix: MixRatio,
    ) -> (r: Result<WorkloadSpec, SpecError>)
        ensures
            r == Self::checked(block_size, total_size, mode, concurrency, direct_io, mix),
            r is Ok ==> r->Ok_0.wf(),
    {
        if block_size == 0 {
            return Err(SpecError::ZeroBlockSize);
        }
        if concurrency == 0 {
            return Err(SpecError::ZeroConcurrency);
        }
        if mix.total_parts == 0 || mix.read_parts > mix.total_parts {
            return Err(SpecError::InvalidMix);
        }
        if mode.is_sequential() && total_size / block_size < concurrency {
            return Err(SpecError::TooFewBlocks);
        }
        Ok(WorkloadSpec { block_size, total_size, mode, concurrency, direct_io, mix })
    }

    /// What [`WorkloadSpec::new`] returns.
    pub open spec fn checked(
        block_size: usize,
        total_size: usize,
        mode: Mode,
        concurrency: usize,
        direct_io: bool,
        mix: MixRatio,
    ) -> Result<WorkloadSpec, SpecError> {
        if block_size == 0 {
            Err(SpecError::ZeroBlockSize)
        } else if concurrency == 0 {
            Err(SpecError::ZeroConcurrency)
        } else if !mix.wf() {
            Err(SpecError::InvalidMix)
        } else if mode.sequential() && (total_size as int) / (block_size as int) < concurrency {
            Err(SpecError::TooFewBlocks)
        } else {
            Ok(WorkloadSpec { block_size, total_size, mode, concurrency, direct_io, mix })
        }
    }

    /// Tests the invariant of a descriptor built by hand.
    pub fn is_valid(&self) -> (r: bool)
        ensures
            r == self.wf(),
    {
        self.block_size > 0 && self.concurrency > 0 && self.mix.total_parts > 0
            && self.mix.read_parts <= self.mix.total_parts && (!self.mode.is_sequential()
            || self.total_size / self.block_size >= self.concurrency)
    }

    /// Whole blocks that fit in the requested size.
    pub fn total_blocks(&self) -> (r: usize)
        requires
            self.wf(),
        ensures
            r == self.blocks(),
    {
        self.total_size / self.block_size
    }

    /// Blocks each worker touches.
    pub fn blocks_per_thread(&self) -> (r: usize)
        requires
            self.wf(),
        ensures
            r == self.per_worker(),
    {
        self.total_size / self.block_size / self.concurrency
    }

    /// Bytes one worker moves in a complete run.
    pub fn bytes_per_thread(&self) -> (r: u64)
        requires
            self.wf(),
        ensures
            r == self.worker_bytes(),
    {
        proof {
            self.lemma_slice_bounds(0);
        }
        let per: u64 = self.blocks_per_thread() as u64;
        per * (self.block_size as u64)
    }

    /// Length the backing file must have before a run: `blocks` zero-filled
    /// buffers of `block_size` bytes.
    pub fn provisioned_size(&self) -> (r: u64)
        requires
            self.wf(),
        ensures
            r == self.provisioned(),
            r <= self.total_size,
    {
        proof {
            self.lemma_slice_bounds(0);
        }
        let blocks: u64 = self.total_blocks() as u64;
        blocks * (self.block_size as u64)
    }

    /// Offset at which worker `tid` begins under a sequential pattern.
    pub fn start_offset(&self, tid: usize) -> (r: u64)
        requires
            self.wf(),
            tid < self.concurrency,
        ensures
            r == self.slice_start(tid as int),
    {
        proof {
            self.lemma_slice_bounds(tid as int);
            let p = self.per_worker();
            let s = self.block_size as int;
            assert(0 <= tid * p) by (nonlinear_arith)
                requires
                    0 <= tid,
                    0 <= p,
            ;
            assert(tid * p <= tid * p * s) by (nonlinear_arith)
                requires
                    0 <= tid * p,
                    1 <= s,
            ;
        }
        let per: u64 = self.blocks_per_thread() as u64;
        (tid as u64) * per * (self.block_size as u64)
    }

    /// Offset of the `i`-th block of worker `tid`'s slice.
    pub fn seq_offset(&self, tid: usize, i: usize) -> (r: u64)
        requires
            self.wf(),
            tid < self.concurrency,
            i < self.per_worker(),
        ensures
            r == self.slice_start(tid as int) + i * self.block_size,
            self.slice_start(tid as int) <= r,
            r + self.block_size <= self.slice_end(tid as int),
    {
        proof {
            self.lemma_slice_bounds(tid as int);
            let p = self.per_worker();
            let s = self.block_size as int;
            assert(0 <= i * s && (i + 1) * s <= p * s && (i + 1) * s == i * s + s)
                by (nonlinear_arith)
                requires
                    0 <= i < p,
                    0 < s,
            ;
        }
        self.start_offset(tid) + (i as u64) * (self.block_size as u64)
    }

    /// Offset of block `index` of the file, for the random patterns.
    pub fn block_offset(&self, index: usize) -> (r: u64)
        requires
            self.wf(),
            index < self.blocks(),
        ensures
            r == index * self.block_size,
            r + self.block_size <= self.provisioned(),
    {
        proof {
            self.lemma_slice_bounds(0);
            let b = self.blocks();
            let s = self.block_size as int;
            assert(0 <= index * s && (index + 1) * s <= b * s && (index + 1) * s == index * s + s)
                by (nonlinear_arith)
                requires
                    0 <= index < b,
                    0 < s,
            ;
        }
        (index as u64) * (self.block_size as u64)
    }

    /// Every slice lies inside the provisioned file, which in turn is no
    /// larger than the requested size.
    pub proof fn lemma_slice_bounds(&self, tid: int)
        requires
            self.wf(),
            0 <= tid < self.concurrency,
        ensures
            0 <= self.per_worker() <= self.blocks(),
            0 <= self.slice_start(tid) <= self.slice_end(tid),
            self.slice_end(tid) <= self.provisioned(),
            self.provisioned() <= self.total_size,
            self.concurrency * self.worker_bytes() <= self.provisioned(),
    {
        let t = self.total_size as int;
        let s = self.block_size as int;
        let c = self.concurrency as int;
        let b = self.blocks();
        let p = self.per_worker();
        assert(0 <= b && b * s <= t) by (nonlinear_arith)
            requires
                b == t / s,
                0 <= t,
                0 < s,
        ;
        assert(0 <= p && p * c <= b) by (nonlinear_arith)
            requires
                p == b / c,
                0 <= b,
                0 < c,
        ;
        assert(p <= b) by (nonlinear_arith)
            requires
                p * c <= b,
                0 <= p,
                1 <= c,
        ;
        assert(0 <= tid * p * s && tid * p * s + p * s == (tid + 1) * (p * s) && 0 <= p * s)
            by (nonlinear_arith)
            requires
                0 <= tid,
                0 <= p,
                0 < s,
        ;
        assert((tid + 1) * (p * s) <= c * (p * s)) by (nonlinear_arith)
            requires
                tid + 1 <= c,
                0 <= p * s,
        ;
        assert(c * (p * s) <= b * s) by (nonlinear_arith)
            requires
                p * c <= b,
                0 < s,
        ;
    }

    /// No two workers share a byte under a sequential pattern: the slice of
    /// the lower-numbered worker ends where or before the other begins.
    pub proof fn law_slices_disjoint(&self, tid_a: int, tid_b: int)
        requires
            self.wf(),
            0 <= tid_a < tid_b < self.concurrency,
        ensures
            self.slice_end(tid_a) <= self.slice_start(tid_b),
    {
        let s = self.block_size as int;
        let p = self.per_worker();
        self.lemma_slice_bounds(tid_a);
        assert(tid_a * p * s + p * s == (tid_a + 1) * (p * s) && tid_b * p * s == tid_b * (p * s))
            by (nonlinear_arith);
        assert((tid_a + 1) * (p * s) <= tid_b * (p * s)) by (nonlinear_arith)
            requires
                tid_a + 1 <= tid_b,
                0 <= p * s,
        ;
    }
}

} // verus!
