//! A span of wall-clock time as plain values: whole seconds and a
//! sub-second remainder in nanoseconds. The run's duration limit, the
//! pacing delays and the elapsed time of a summary are all spans.

use vstd::prelude::*;

verus! {

/// How many nanoseconds one second holds.
pub const NANOS_PER_SEC: u32 = 1_000_000_000;

/// A non-negative span of time: `secs` whole seconds plus `nanos`
/// nanoseconds. A well-formed span keeps `nanos` below one second.
#[derive(Clone, Copy, Debug, PartialEq, Eq, Structural)]
pub struct TimeSpan {
    pub secs: u64,
    pub nanos: u32,
}

impl TimeSpan {
    /// The sub-second part stays below one second.
    pub open spec fn wf(self) -> bool {
        self.nanos < NANOS_PER_SEC
    }

    /// The whole span counted in nanoseconds.
    pub open spec fn as_nanos(self) -> nat {
        (self.secs * NANOS_PER_SEC + self.nanos) as nat
    }

    /// The zero-length span.
    pub fn zero() -> (r: TimeSpan)
        ensures
            r.wf(),
            r.as_nanos() == 0,
    {
        TimeSpan { secs: 0, nanos: 0 }
    }

    /// Whether this span is at least as long as `other`.
    pub fn ge(&self, other: &TimeSpan) -> (r: bool)
        requires
            self.wf(),
            other.wf(),
        ensures
            r == (self.as_nanos() >= other.as_nanos()),
    {
        proof {
            lemma_span_order(*self, *other);
        }
        self.secs > other.secs || (self.secs == other.secs && self.nanos >= other.nanos)
    }

    /// Whether this span is zero-length.
    pub fn is_zero(&self) -> (r: bool)
        ensures
            r == (self.as_nanos() == 0),
    {
        self.secs == 0 && self.nanos == 0
    }
}

/// On well-formed spans, comparing `(secs, nanos)` lexicographically is
/// the same as comparing total nanosecond counts.
proof fn lemma_span_order(a: TimeSpan, b: TimeSpan)
    requires
        a.wf(),
        b.wf(),
    ensures
        (a.as_nanos() >= b.as_nanos()) == (a.secs > b.secs || (a.secs == b.secs
            && a.nanos >= b.nanos)),
{
    if a.secs > b.secs {
        assert(a.secs * NANOS_PER_SEC >= (b.secs + 1) * NANOS_PER_SEC) by (nonlinear_arith)
            requires
                a.secs >= b.secs + 1,
        ;
    }
    if b.secs > a.secs {
        assert(b.secs * NANOS_PER_SEC >= (a.secs + 1) * NANOS_PER_SEC) by (nonlinear_arith)
            requires
                b.secs >= a.secs + 1,
        ;
    }
}

} // verus!
