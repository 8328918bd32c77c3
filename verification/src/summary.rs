//! The running summary of one run: how many bytes and packets have been
//! sent since the run began, and derived throughput metrics. The counters
//! only ever grow; the elapsed time comes from a monotonic clock reading
//! captured when the summary is created.

use vstd::prelude::*;

use crate::timespan::TimeSpan;

verus! {

/// `std::time::Instant`, held opaquely: a reading of the monotonic clock.
#[verifier::external_type_specification]
#[verifier::external_body]
pub struct ExInstant(std::time::Instant);

/// Relies on `Instant` being `Copy`: its `clone` returns the same
/// reading.
pub assume_specification[ <std::time::Instant as Clone>::clone ](v: &std::time::Instant) -> (r:
    std::time::Instant)
    ensures
        r == *v,
;

/// Relies on `std::time::Instant::now` for a reading of the monotonic
/// clock. Nothing can be promised of the reading itself.
#[verifier::external_body]
fn monotonic_now() -> std::time::Instant {
    std::time::Instant::now()
}

/// The mathematical content of a summary: the two counters.
pub ghost struct SummaryView {
    pub bytes_sent: nat,
    pub packets_sent: nat,
}

/// The counters after adding `bytes` and `packets` to `s`.
pub open spec fn updated(s: SummaryView, bytes: nat, packets: nat) -> SummaryView {
    SummaryView { bytes_sent: s.bytes_sent + bytes, packets_sent: s.packets_sent + packets }
}

/// Whole megabytes held in `bytes`, rounded down.
pub open spec fn spec_megabytes(bytes: nat) -> nat {
    bytes / (1024 * 1024)
}

/// Average whole megabytes per second over `secs` seconds, and zero while
/// less than one whole second has passed.
pub open spec fn spec_throughput(bytes: nat, secs: nat) -> nat {
    if secs == 0 {
        0
    } else {
        spec_megabytes(bytes) / secs
    }
}

/// The statistics accumulator for one run: bytes sent, packets sent, and
/// the moment the run began.
#[derive(Debug, Clone)]
pub struct TestSummary {
    bytes_sent: usize,
    packets_sent: usize,
    initial_time: std::time::Instant,
}

impl View for TestSummary {
    type V = SummaryView;

    closed spec fn view(&self) -> SummaryView {
        SummaryView { bytes_sent: self.bytes_sent as nat, packets_sent: self.packets_sent as nat }
    }
}

impl TestSummary {
    /// A fresh summary: both counters at zero, the start time read from
    /// the monotonic clock now.
    pub fn new() -> (r: TestSummary)
        ensures
            r@.bytes_sent == 0,
            r@.packets_sent == 0,
    {
        TestSummary { bytes_sent: 0, packets_sent: 0, initial_time: monotonic_now() }
    }

    /// Add to both counters. Strictly additive: nothing is validated,
    /// capped or reset.
    pub fn update(&mut self, additional_bytes: usize, additional_packets: usize)
        requires
            old(self)@.bytes_sent + additional_bytes <= usize::MAX,
            old(self)@.packets_sent + additional_packets <= usize::MAX,
        ensures
            final(self)@ == updated(old(self)@, additional_bytes as nat, additional_packets as nat),
    {
        self.bytes_sent += additional_bytes;
        self.packets_sent += additional_packets;
    }

    /// The bytes counter itself, so that a caller can test for counter
    /// overflow before an update.
    pub fn bytes_sent(&self) -> (r: usize)
        ensures
            r == self@.bytes_sent,
    {
        self.bytes_sent
    }

    /// Whole megabytes sent so far, rounded down.
    pub fn megabytes_sent(&self) -> (r: usize)
        ensures
            r == spec_megabytes(self@.bytes_sent),
    {
        self.bytes_sent / (1024 * 1024)
    }

    /// How many packets have been sent so far.
    pub fn packets_sent(&self) -> (r: usize)
        ensures
            r == self@.packets_sent,
    {
        self.packets_sent
    }

    /// Relies on `std::time::Instant::elapsed`: the time since this
    /// summary was created, non-negative, with the sub-second part read
    /// through `Duration::as_secs` and `Duration::subsec_nanos`, the
    /// latter documented to stay below one billion.
    #[verifier::external_body]
    pub fn time_passed(&self) -> (r: TimeSpan)
        ensures
            r.wf(),
    {
        let elapsed = self.initial_time.elapsed();
        TimeSpan { secs: elapsed.as_secs(), nanos: elapsed.subsec_nanos() }
    }

    /// The average throughput so far in whole megabytes per second, for
    /// the elapsed seconds the clock reports at the moment of the call.
    pub fn megabytes_in_sec(&self) -> (r: usize)
        ensures
            exists|secs: nat| r == spec_throughput(self@.bytes_sent, secs),
    {
        let elapsed = self.time_passed();
        let r = throughput_of(self.megabytes_sent(), elapsed.secs);
        proof {
            assert(r == spec_throughput(self@.bytes_sent, elapsed.secs as nat));
        }
        r
    }
}

/// Whole megabytes per second, given the megabytes sent and a count of
/// elapsed whole seconds; zero while less than one second has passed.
pub fn throughput_of(megabytes: usize, secs: u64) -> (r: usize)
    ensures
        secs == 0 ==> r == 0,
        secs > 0 ==> r == megabytes as nat / secs as nat,
{
    if secs == 0 {
        0
    } else {
        let m = megabytes as u64;
        let q = m / secs;
        proof {
            assert(q <= m) by (nonlinear_arith)
                requires
                    secs >= 1,
                    q == m as nat / secs as nat,
            ;
        }
        q as usize
    }
}

/// Law: applying one update and then another leaves exactly the counters
/// of the single update by the two sums; accumulation is associative.
pub proof fn lemma_update_associative(s: SummaryView, a: nat, b: nat, c: nat, d: nat)
    ensures
        updated(updated(s, a, b), c, d) == updated(s, a + c, b + d),
{
}

/// Law: an update that adds zero bytes and zero packets changes neither
/// counter.
pub proof fn lemma_zero_update_is_noop(s: SummaryView)
    ensures
        updated(s, 0, 0) == s,
{
}

} // verus!
