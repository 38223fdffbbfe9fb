//! Merging the results of all workers of one run.

use crate::worker::WorkerResult;
use crate::workload::{Mode, WorkloadSpec};
use vstd::prelude::*;

verus! {

/// Sum of the bytes read over `rs`.
pub open spec fn total_bytes_read(rs: Seq<WorkerResult>) -> int
    decreases rs.len(),
{
    if rs.len() == 0 {
        0
    } else {
        total_bytes_read(rs.drop_last()) + rs.last().bytes_read
    }
}

/// Sum of the bytes written over `rs`.
pub open spec fn total_bytes_written(rs: Seq<WorkerResult>) -> int
    decreases rs.len(),
{
    if rs.len() == 0 {
        0
    } else {
        total_bytes_written(rs.drop_last()) + rs.last().bytes_written
    }
}

/// Sum of the read durations over `rs`.
pub open spec fn total_read_ns(rs: Seq<WorkerResult>) -> int
    decreases rs.len(),
{
    if rs.len() == 0 {
        0
    } else {
        total_read_ns(rs.drop_last()) + rs.last().read_ns
    }
}

/// Sum of the write durations over `rs`.
pub open spec fn total_write_ns(rs: Seq<WorkerResult>) -> int
    decreases rs.len(),
{
    if rs.len() == 0 {
        0
    } else {
        total_write_ns(rs.drop_last()) + rs.last().write_ns
    }
}

/// Totals of one run. The byte counts are sums over all workers; the two
/// durations are the sums divided by the number of workers, that is an
/// average per worker and not a wall-clock span.
#[derive(Debug, Clone, Copy, PartialEq, Eq, Structural)]
pub struct AggregateResult {
    pub bytes_read: u64,
    pub bytes_written: u64,
    pub read_ns: u64,
    pub write_ns: u64,
}

/// Why a result was not merged.
#[derive(Debug, Clone, Copy, PartialEq, Eq, Structural)]
pub enum MergeError {
    /// Every worker of the run has reported already.
    Full,
    /// The byte counts do not add up to one worker's share.
    Incomplete,
}

/// The four accumulators of one run. Each worker merges its result once,
/// when it is done; the totals can be read when all have.
pub struct Aggregator {
    spec: WorkloadSpec,
    merged: usize,
    bytes_read: u64,
    bytes_written: u64,
    read_ns: u128,
    write_ns: u128,
    history: Ghost<Seq<WorkerResult>>,
}

impl Aggregator {
    #[verifier::type_invariant]
    spec fn inv(self) -> bool {
        &&& self.spec.wf()
        &&& self.history@.len() == self.merged
        &&& self.merged <= self.spec.concurrency
        &&& self.bytes_read == total_bytes_read(self.history@)
        &&& self.bytes_written == total_bytes_written(self.history@)
        &&& self.read_ns == total_read_ns(self.history@)
        &&& self.write_ns == total_write_ns(self.history@)
        &&& self.bytes_read + self.bytes_written == self.merged * self.spec.worker_bytes()
        &&& self.read_ns <= self.merged * u64::MAX
        &&& self.write_ns <= self.merged * u64::MAX
    }

    /// The workload whose results are collected.
    pub closed spec fn workload(self) -> WorkloadSpec {
        self.spec
    }

    /// The results merged so far, in the order of their arrival.
    pub closed spec fn merged(self) -> Seq<WorkerResult> {
        self.history@
    }

    /// An empty aggregator for the workers of `spec`. `None` where `spec` is
    /// not a workload.
    pub fn new(spec: WorkloadSpec) -> (r: Option<Aggregator>)
        ensures
            r is Some <==> spec.wf(),
            r is Some ==> r->0.workload() == spec && r->0.merged() == Seq::<WorkerResult>::empty(),
    {
        if !spec.is_valid() {
            return None;
        }
        assert(0 * spec.worker_bytes() == 0 && 0 * u64::MAX == 0) by (nonlinear_arith);
        Some(
            Aggregator {
                spec,
                merged: 0,
                bytes_read: 0,
                bytes_written: 0,
                read_ns: 0,
                write_ns: 0,
                history: Ghost(Seq::empty()),
            },
        )
    }

    /// Number of results merged so far.
    pub fn count(&self) -> (r: usize)
        ensures
            r == self.merged().len(),
            r <= self.workload().concurrency,
    {
        proof {
            use_type_invariant(self);
        }
        self.merged
    }

    /// Adds one worker's result to the totals. A result is refused, and the
    /// aggregator left as it was, when all workers have reported or when the
    /// byte counts are not those of a complete run.
    pub fn merge(&mut self, r: &WorkerResult) -> (res: Result<(), MergeError>)
        ensures
            final(self).workload() == old(self).workload(),
            res == Self::verdict(old(self).workload(), old(self).merged(), *r),
            res is Ok ==> final(self).merged() == old(self).merged().push(*r),
            res is Err ==> final(self).merged() == old(self).merged(),
    {
        proof {
            use_type_invariant(&*self);
            self.spec.lemma_slice_bounds(0);
        }
        if self.merged >= self.spec.concurrency {
            return Err(MergeError::Full);
        }
        let share: u64 = self.spec.bytes_per_thread();
        if r.bytes_read > share || r.bytes_written != share - r.bytes_read {
            return Err(MergeError::Incomplete);
        }
        let ghost before = self.history@;
        let ghost after = before.push(*r);
        proof {
            assert(after.drop_last() =~= before);
            let m = self.merged as int;
            let c = self.spec.concurrency as int;
            let w = self.spec.worker_bytes();
            assert((m + 1) * w == m * w + w && (m + 1) * w <= c * w) by (nonlinear_arith)
                requires
                    0 <= m < c,
                    0 <= w,
            ;
            assert((m + 1) * u64::MAX == m * u64::MAX + u64::MAX && (m + 1) * u64::MAX <= c
                * u64::MAX) by (nonlinear_arith)
                requires
                    0 <= m < c,
            ;
            assert(c * u64::MAX <= u64::MAX * u64::MAX) by (nonlinear_arith)
                requires
                    0 <= c <= u64::MAX,
            ;
        }
        *self = Aggregator {
            spec: self.spec,
            merged: self.merged + 1,
            bytes_read: self.bytes_read + r.bytes_read,
            bytes_written: self.bytes_written + r.bytes_written,
            read_ns: self.read_ns + r.read_ns as u128,
            write_ns: self.write_ns + r.write_ns as u128,
            history: Ghost(after),
        };
        Ok(())
    }

    /// What [`Aggregator::merge`] answers.
    pub open spec fn verdict(spec: WorkloadSpec, merged: Seq<WorkerResult>, r: WorkerResult)
        -> Result<(), MergeError> {
        if merged.len() >= spec.concurrency {
            Err(MergeError::Full)
        } else if r.bytes_read + r.bytes_written != spec.worker_bytes() {
            Err(MergeError::Incomplete)
        } else {
            Ok(())
        }
    }

    /// The totals of the run: `Some` once every worker has reported, and not
    /// before. The bytes moved are then exactly
    /// `per_worker * concurrency * block_size`; blocks beyond that are never
    /// touched.
    pub fn finish(&self) -> (res: Option<AggregateResult>)
        ensures
            res is Some <==> self.merged().len() == self.workload().concurrency,
            res is Some ==> {
                let a = res->0;
                let c = self.workload().concurrency as int;
                &&& a.bytes_read == total_bytes_read(self.merged())
                &&& a.bytes_written == total_bytes_written(self.merged())
                &&& a.read_ns == total_read_ns(self.merged()) / c
                &&& a.write_ns == total_write_ns(self.merged()) / c
                &&& a.bytes_read + a.bytes_written == self.workload().per_worker() * c
                    * self.workload().block_size
                &&& (c == 1 ==> a.read_ns == self.merged()[0].read_ns && a.write_ns
                    == self.merged()[0].write_ns)
            },
    {
        proof {
            use_type_invariant(self);
            if self.history@.len() == 1 {
                assert(self.history@ =~= seq![self.history@[0]]);
                law_single_worker_keeps_raw_time(self.history@[0]);
            }
        }
        if self.merged != self.spec.concurrency {
            return None;
        }
        let c: u128 = self.spec.concurrency as u128;
        proof {
            let n = self.spec.concurrency as int;
            let r = self.read_ns as int;
            let w = self.write_ns as int;
            assert(r / n <= u64::MAX && w / n <= u64::MAX) by (nonlinear_arith)
                requires
                    0 < n,
                    0 <= r <= n * u64::MAX,
                    0 <= w <= n * u64::MAX,
            ;
            let p = self.spec.per_worker();
            let s = self.spec.block_size as int;
            assert(n * (p * s) == p * n * s) by (nonlinear_arith);
        }
        Some(
            AggregateResult {
                bytes_read: self.bytes_read,
                bytes_written: self.bytes_written,
                read_ns: (self.read_ns / c) as u64,
                write_ns: (self.write_ns / c) as u64,
            },
        )
    }
}

/// Over complete results of one workload the bytes moved are the workers'
/// shares added up, and a pattern that only reads (only writes) has nothing
/// on the other side.
pub proof fn lemma_complete_totals(spec: WorkloadSpec, rs: Seq<WorkerResult>)
    requires
        spec.wf(),
        forall|i: int| 0 <= i < rs.len() ==> (#[trigger] rs[i]).complete_for(spec),
    ensures
        total_bytes_read(rs) + total_bytes_written(rs) == rs.len() * spec.worker_bytes(),
        spec.mode == Mode::SeqRead || spec.mode == Mode::RandRead ==> total_bytes_written(rs) == 0
            && total_write_ns(rs) == 0,
        spec.mode == Mode::SeqWrite || spec.mode == Mode::RandWrite ==> total_bytes_read(rs) == 0
            && total_read_ns(rs) == 0,
    decreases rs.len(),
{
    let w = spec.worker_bytes();
    if rs.len() == 0 {
        assert(0 * w == 0) by (nonlinear_arith);
    } else {
        let head = rs.drop_last();
        assert forall|i: int| 0 <= i < head.len() implies (#[trigger] head[i]).complete_for(
            spec,
        ) by {
            assert(head[i] == rs[i]);
        }
        lemma_complete_totals(spec, head);
        assert(rs.last() == rs[rs.len() - 1]);
        assert(rs.last().complete_for(spec));
        let n = head.len() as int;
        assert((n + 1) * w == n * w + w) by (nonlinear_arith);
    }
}

/// When every worker of a run reports a complete result, the aggregate
/// bytes moved are exactly `per_worker * concurrency * block_size`, all of
/// them read under a reading pattern and all of them written under a writing
/// pattern.
pub proof fn law_bytes_moved(spec: WorkloadSpec, rs: Seq<WorkerResult>)
    requires
        spec.wf(),
        rs.len() == spec.concurrency,
        forall|i: int| 0 <= i < rs.len() ==> (#[trigger] rs[i]).complete_for(spec),
    ensures
        total_bytes_read(rs) + total_bytes_written(rs) == spec.per_worker() * spec.concurrency
            * spec.block_size,
        spec.mode == Mode::SeqRead || spec.mode == Mode::RandRead ==> total_bytes_written(rs) == 0
            && total_bytes_read(rs) == spec.per_worker() * spec.concurrency * spec.block_size,
        spec.mode == Mode::SeqWrite || spec.mode == Mode::RandWrite ==> total_bytes_read(rs) == 0
            && total_bytes_written(rs) == spec.per_worker() * spec.concurrency * spec.block_size,
{
    lemma_complete_totals(spec, rs);
    let c = spec.concurrency as int;
    let p = spec.per_worker();
    let s = spec.block_size as int;
    assert(c * (p * s) == p * c * s) by (nonlinear_arith);
}

/// With a single worker the divisor of the normalisation is one: the
/// durations of the aggregate are the worker's own, unchanged.
pub proof fn law_single_worker_keeps_raw_time(r: WorkerResult)
    ensures
        total_read_ns(seq![r]) / 1 == r.read_ns,
        total_write_ns(seq![r]) / 1 == r.write_ns,
        total_bytes_read(seq![r]) == r.bytes_read,
        total_bytes_written(seq![r]) == r.bytes_written,
{
    let rs = seq![r];
    assert(rs.drop_last() =~= Seq::<WorkerResult>::empty());
    assert(rs.last() == r);
    reveal_with_fuel(total_read_ns, 2);
    reveal_with_fuel(total_write_ns, 2);
    reveal_with_fuel(total_bytes_read, 2);
    reveal_with_fuel(total_bytes_written, 2);
}

} // verus!
