//! Throughput and operation rate derived from the totals of a run.
//!
//! A rate is kept as the exact quotient it is. It is rounded only where it
//! is shown.

use crate::aggregate::AggregateResult;
use vstd::prelude::*;

verus! {

/// Floor under the measured time, in nanoseconds (a tenth of a
/// millisecond). It keeps the rates defined when a run is too short to
/// measure.
pub const EPSILON_NS: u64 = 100_000;

/// Nanoseconds in a second.
pub const NANOS_PER_SEC: u64 = 1_000_000_000;

/// Bytes in the unit of the throughput column.
pub const MIB: u64 = 1_048_576;

/// Largest numerator of a rate: 2^100.
pub const MAX_NUMERATOR: u128 = 0x10_0000_0000_0000_0000_0000_0000;

/// Largest duration of a rate, in nanoseconds: 2^66.
pub const MAX_NANOS: u128 = 0x4_0000_0000_0000_0000;

/// Largest unit of a rate: 2^64.
pub const MAX_UNIT: u128 = 0x1_0000_0000_0000_0000;

/// `num / den` rounded to the nearest whole number; where two are equally
/// near, to the even one.
pub open spec fn round_nearest(num: int, den: int) -> int {
    let q = num / den;
    let r = num % den;
    if 2 * r > den || (2 * r == den && q % 2 == 1) {
        q + 1
    } else {
        q
    }
}

/// How twice a remainder stands to the divisor.
enum Half {
    Below,
    Exact,
    Above,
}

/// Rounds `num / (ns * unit)` to the nearest whole number without forming
/// the product.
fn nearest_quotient(num: u128, ns: u128, unit: u128) -> (r: u128)
    requires
        0 < ns <= MAX_NANOS,
        0 < unit,
    ensures
        r == round_nearest(num as int, ns * unit),
{
    let q1: u128 = num / ns;
    let r1: u128 = num % ns;
    let q: u128 = q1 / unit;
    let r2: u128 = q1 % unit;
    let half: u128 = unit / 2;
    let odd: bool = unit % 2 == 1;
    let ghost den: int = ns * unit;
    let ghost rest: int = r2 * ns + r1;
    proof {
        let n = ns as int;
        let u = unit as int;
        vstd::arithmetic::div_mod::lemma_fundamental_div_mod(num as int, n);
        vstd::arithmetic::div_mod::lemma_fundamental_div_mod(q1 as int, u);
        assert(n * q1 == q1 * n && u * q == q * u) by (nonlinear_arith);
        assert(0 <= rest < den && num == q * den + rest) by (nonlinear_arith)
            requires
                num == q1 * n + r1,
                q1 == q * u + r2,
                0 <= r1 < n,
                0 <= r2 < u,
                den == n * u,
                rest == r2 * n + r1,
                0 <= q,
        ;
        assert(den > 0) by (nonlinear_arith)
            requires
                den == n * u,
                n > 0,
                u > 0,
        ;
        vstd::arithmetic::div_mod::lemma_fundamental_div_mod_converse(
            num as int,
            den,
            q as int,
            rest,
        );
    }
    let side: Half = if r2 > half {
        Half::Above
    } else if r2 < half {
        Half::Below
    } else if !odd {
        if r1 > 0 {
            Half::Above
        } else {
            Half::Exact
        }
    } else if r1 > ns - r1 {
        Half::Above
    } else if r1 == ns - r1 {
        Half::Exact
    } else {
        Half::Below
    };
    proof {
        let n = ns as int;
        let u = unit as int;
        let h = half as int;
        let e: int = if odd {
            1
        } else {
            0
        };
        assert(u == 2 * h + e);
        assert(2 * rest - den == 2 * (r2 - h) * n + 2 * r1 - e * n) by (nonlinear_arith)
            requires
                rest == r2 * n + r1,
                den == n * u,
                u == 2 * h + e,
        ;
        if r2 > h {
            assert(2 * (r2 - h) * n >= 2 * n) by (nonlinear_arith)
                requires
                    r2 - h >= 1,
                    n > 0,
            ;
        }
        if r2 < h {
            assert(2 * (r2 - h) * n <= -2 * n) by (nonlinear_arith)
                requires
                    r2 - h <= -1,
                    n > 0,
            ;
        }
        if r2 == h {
            assert(2 * (r2 - h) * n == 0) by (nonlinear_arith)
                requires
                    r2 - h == 0,
            ;
        }
        assert(e * n == if odd {
            n
        } else {
            0
        }) by (nonlinear_arith)
            requires
                e == (if odd {
                    1int
                } else {
                    0int
                }),
        ;
        assert(side is Above <==> 2 * rest > den);
        assert(side is Exact <==> 2 * rest == den);
    }
    let up: bool = match side {
        Half::Above => true,
        Half::Exact => q % 2 == 1,
        Half::Below => false,
    };
    if up {
        proof {
            assert(q < num) by (nonlinear_arith)
                requires
                    num == q * den + rest,
                    2 * rest >= den,
                    den > 0,
                    q >= 0,
            ;
        }
        q + 1
    } else {
        q
    }
}

/// A rate as an exact quotient: so many units in so many nanoseconds,
/// scaled to a second. Its value is `numerator / (nanos * unit_size)`.
#[derive(Debug, Clone, Copy, PartialEq, Eq, Structural)]
pub struct Rate {
    num: u128,
    ns: u128,
    unit: u128,
}

impl Rate {
    #[verifier::type_invariant]
    spec fn inv(self) -> bool {
        &&& self.num <= MAX_NUMERATOR
        &&& 0 < self.ns <= MAX_NANOS
        &&& 0 < self.unit <= MAX_UNIT
    }

    /// What was moved, in bytes, times the nanoseconds in a second.
    pub closed spec fn numerator(self) -> int {
        self.num as int
    }

    /// The nanoseconds it took.
    pub closed spec fn nanos(self) -> int {
        self.ns as int
    }

    /// The bytes in one of the units counted: one for bytes, the block
    /// size for operations.
    pub closed spec fn unit_size(self) -> int {
        self.unit as int
    }

    /// What the numerator is divided by.
    pub open spec fn divisor(self) -> int {
        self.nanos() * self.unit_size()
    }

    /// What makes three numbers a rate.
    pub open spec fn fits(num: int, ns: int, unit: int) -> bool {
        &&& 0 <= num <= MAX_NUMERATOR
        &&& 0 < ns <= MAX_NANOS
        &&& 0 < unit <= MAX_UNIT
    }

    /// Whether the rate is above `bound`.
    pub open spec fn above(self, bound: int) -> bool {
        self.numerator() > bound * self.divisor()
    }

    /// Whether the rate is above zero.
    pub open spec fn positive(self) -> bool {
        self.above(0)
    }

    /// The rate rounded to the nearest whole number, to the even one of
    /// two that are equally near.
    pub open spec fn nearest(self) -> int {
        round_nearest(self.numerator(), self.divisor())
    }

    /// The rate in hundredths of a MiB where it is in bytes, rounded in the
    /// same way.
    pub open spec fn centi_mib(self) -> int {
        round_nearest(self.numerator() * 100, self.divisor() * MIB)
    }

    /// The rate `num / (ns * unit)`; `None` where the three are no rate.
    pub fn new(num: u128, ns: u128, unit: u128) -> (r: Option<Rate>)
        ensures
            r is Some <==> Self::fits(num as int, ns as int, unit as int),
            r is Some ==> r->0.numerator() == num && r->0.nanos() == ns && r->0.unit_size()
                == unit,
    {
        if num <= MAX_NUMERATOR && 0 < ns && ns <= MAX_NANOS && 0 < unit && unit <= MAX_UNIT {
            Some(Rate { num, ns, unit })
        } else {
            None
        }
    }

    /// Numerator, nanoseconds and unit of the rate.
    pub fn parts(&self) -> (r: (u128, u128, u128))
        ensures
            r.0 == self.numerator(),
            r.1 == self.nanos(),
            r.2 == self.unit_size(),
            Self::fits(r.0 as int, r.1 as int, r.2 as int),
    {
        proof {
            use_type_invariant(self);
        }
        (self.num, self.ns, self.unit)
    }

    /// Tells whether the rate is above zero.
    pub fn is_positive(&self) -> (r: bool)
        ensures
            r == self.positive(),
    {
        proof {
            use_type_invariant(self);
            assert(0 * self.divisor() == 0) by (nonlinear_arith);
        }
        self.num > 0
    }

    /// Rounds the rate to the nearest whole number.
    pub fn rounded(&self) -> (r: u128)
        ensures
            r == self.nearest(),
    {
        proof {
            use_type_invariant(self);
        }
        nearest_quotient(self.num, self.ns, self.unit)
    }

    /// Rounds a rate in bytes to the nearest hundredth of a MiB.
    pub fn hundredths_of_mib(&self) -> (r: u128)
        ensures
            r == self.centi_mib(),
    {
        proof {
            use_type_invariant(self);
            let n = self.ns as int;
            let u = self.unit as int;
            assert(n * (u * 1_048_576) == (n * u) * 1_048_576) by (nonlinear_arith);
        }
        nearest_quotient(self.num * 100, self.ns, self.unit * (MIB as u128))
    }
}

/// Rates of one run.
#[derive(Debug, Clone, Copy, PartialEq, Eq, Structural)]
pub struct DerivedMetrics {
    /// Bytes per second.
    pub throughput_bytes_per_sec: Rate,
    /// Block operations per second.
    pub ops_per_sec: Rate,
}

/// Bytes moved in both directions.
pub open spec fn bytes_moved(a: AggregateResult) -> int {
    a.bytes_read + a.bytes_written
}

/// The time the rates are taken over: the two averaged durations added,
/// and no less than the floor.
pub open spec fn effective_ns(a: AggregateResult) -> int {
    if a.read_ns + a.write_ns < EPSILON_NS {
        EPSILON_NS as int
    } else {
        a.read_ns + a.write_ns
    }
}

/// The rates of a run with the totals `a` and blocks of `block_size`
/// bytes: `bytes / seconds` and `bytes / block_size / seconds`.
pub closed spec fn rates_of(a: AggregateResult, block_size: usize) -> DerivedMetrics {
    DerivedMetrics {
        throughput_bytes_per_sec: Rate {
            num: (bytes_moved(a) * NANOS_PER_SEC) as u128,
            ns: effective_ns(a) as u128,
            unit: 1,
        },
        ops_per_sec: Rate {
            num: (bytes_moved(a) * NANOS_PER_SEC) as u128,
            ns: effective_ns(a) as u128,
            unit: block_size as u128,
        },
    }
}

/// The rates of a run are the exact quotients of the formulas: the bytes
/// moved, scaled to a second, over the time, and for the operations over
/// the block size as well. Each is above zero exactly when bytes were
/// moved, and neither exceeds ten thousand times the bytes moved.
pub proof fn law_rates_are_exact(a: AggregateResult, block_size: usize)
    requires
        block_size > 0,
    ensures
        rates_of(a, block_size).throughput_bytes_per_sec.numerator() == bytes_moved(a)
            * NANOS_PER_SEC,
        rates_of(a, block_size).throughput_bytes_per_sec.nanos() == effective_ns(a),
        rates_of(a, block_size).throughput_bytes_per_sec.unit_size() == 1,
        rates_of(a, block_size).ops_per_sec.numerator() == bytes_moved(a) * NANOS_PER_SEC,
        rates_of(a, block_size).ops_per_sec.nanos() == effective_ns(a),
        rates_of(a, block_size).ops_per_sec.unit_size() == block_size,
        rates_of(a, block_size).throughput_bytes_per_sec.positive() <==> bytes_moved(a) > 0,
        rates_of(a, block_size).ops_per_sec.positive() <==> bytes_moved(a) > 0,
        !rates_of(a, block_size).throughput_bytes_per_sec.above(bytes_moved(a) * 10_000),
        !rates_of(a, block_size).ops_per_sec.above(bytes_moved(a) * 10_000),
{
    let b = bytes_moved(a);
    let e = effective_ns(a);
    let s = block_size as int;
    assert(0 <= b * 1_000_000_000 <= 0x2_0000_0000_0000_0000 * 1_000_000_000) by (
        nonlinear_arith)
        requires
            0 <= b <= 0x2_0000_0000_0000_0000,
    ;
    assert(b * 1_000_000_000 > 0 <==> b > 0) by (nonlinear_arith)
        requires
            0 <= b,
    ;
    assert(0 * (e * 1) == 0 && 0 * (e * s) == 0) by (nonlinear_arith);
    assert(b * 1_000_000_000 <= (b * 10_000) * (e * 1)) by (nonlinear_arith)
        requires
            0 <= b,
            100_000 <= e,
    ;
    assert(b * 1_000_000_000 <= (b * 10_000) * (e * s)) by (nonlinear_arith)
        requires
            0 <= b,
            100_000 <= e,
            1 <= s,
    ;
}

impl DerivedMetrics {
    /// Derives the rates of a run with blocks of `block_size` bytes, as
    /// exact quotients. Both are defined for every input, a measured time
    /// of zero included; both are above zero exactly when bytes were moved;
    /// and neither exceeds ten thousand times the bytes moved.
    pub fn compute(a: &AggregateResult, block_size: usize) -> (m: DerivedMetrics)
        requires
            block_size > 0,
        ensures
            m == rates_of(*a, block_size),
            m.throughput_bytes_per_sec.numerator() == bytes_moved(*a) * NANOS_PER_SEC,
            m.throughput_bytes_per_sec.nanos() == effective_ns(*a),
            m.throughput_bytes_per_sec.unit_size() == 1,
            m.ops_per_sec.numerator() == bytes_moved(*a) * NANOS_PER_SEC,
            m.ops_per_sec.nanos() == effective_ns(*a),
            m.ops_per_sec.unit_size() == block_size,
            m.throughput_bytes_per_sec.positive() <==> bytes_moved(*a) > 0,
            m.ops_per_sec.positive() <==> bytes_moved(*a) > 0,
            !m.throughput_bytes_per_sec.above(bytes_moved(*a) * 10_000),
            !m.ops_per_sec.above(bytes_moved(*a) * 10_000),
    {
        let bytes: u128 = a.bytes_read as u128 + a.bytes_written as u128;
        let sum: u128 = a.read_ns as u128 + a.write_ns as u128;
        let elapsed: u128 = if sum < EPSILON_NS as u128 {
            EPSILON_NS as u128
        } else {
            sum
        };
        proof {
            law_rates_are_exact(*a, block_size);
            let b = bytes as int;
            assert(0 <= b * 1_000_000_000 <= 0x2_0000_0000_0000_0000 * 1_000_000_000) by (
                nonlinear_arith)
                requires
                    0 <= b <= 0x2_0000_0000_0000_0000,
            ;
        }
        let num: u128 = bytes * (NANOS_PER_SEC as u128);
        DerivedMetrics {
            throughput_bytes_per_sec: Rate { num, ns: elapsed, unit: 1 },
            ops_per_sec: Rate { num, ns: elapsed, unit: block_size as u128 },
        }
    }
}

} // verus!
