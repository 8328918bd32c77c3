//! The decision core of one run. The caller owns the socket; after each
//! send it hands the byte count and a fresh clock reading to the state
//! machine here, which accumulates the summary, decides when a
//! progress-report batch is complete, and decides when the run must stop.

use vstd::prelude::*;

use rand::RngCore;

use crate::config::AttackConfig;
use crate::summary::SummaryView;
use crate::summary::TestSummary;
use crate::summary::updated;
use crate::timespan::TimeSpan;

verus! {

/// Relies on rand's `RngCore::fill_bytes` on the thread-local generator:
/// it overwrites the whole slice, in place, with random bytes.
#[verifier::external_body]
fn fill_random_bytes(buffer: &mut Vec<u8>)
    ensures
        final(buffer)@.len() == old(buffer)@.len(),
{
    rand::rng().fill_bytes(buffer.as_mut_slice());
}

/// The payload for one run: exactly `length` pseudo-random bytes,
/// generated once and sent unchanged with every packet.
pub fn random_buffer(length: usize) -> (r: Vec<u8>)
    requires
        crate::config::MIN_PACKET_LENGTH <= length <= crate::config::MAX_PACKET_LENGTH,
    ensures
        r@.len() == length,
{
    let mut buffer: Vec<u8> = Vec::new();
    while buffer.len() < length
        invariant
            buffer@.len() <= length,
        decreases length - buffer@.len(),
    {
        buffer.push(0);
    }
    fill_random_bytes(&mut buffer);
    buffer
}

/// The termination policy: the run stops once the elapsed time has
/// reached the duration limit, or once exactly the configured number of
/// packets has been sent.
pub open spec fn spec_should_stop(elapsed: TimeSpan, packets_sent: nat, config: AttackConfig) -> bool {
    elapsed.as_nanos() >= config.duration.as_nanos() || packets_sent == config.packets
}

/// Evaluate the termination policy against a summary, for the elapsed
/// time the caller has just read.
pub fn check_end_cond(summary: &TestSummary, elapsed: TimeSpan, config: &AttackConfig) -> (r: bool)
    requires
        elapsed.wf(),
        config.wf(),
    ensures
        r == spec_should_stop(elapsed, summary@.packets_sent, *config),
{
    if elapsed.ge(&config.duration) {
        return true;
    }
    summary.packets_sent() == config.packets
}

/// What the caller must do after one successful send.
#[derive(Debug, Clone, Copy, PartialEq, Eq, Structural)]
pub enum Verdict {
    /// Keep sending.
    Continue,
    /// Keep sending, and emit a progress report first: a batch is
    /// complete.
    Report,
    /// The termination policy fired: stop and return the summary.
    Stop,
}

/// The mathematical content of the loop state: the summary's counters and
/// the position inside the current progress-report batch.
pub ghost struct AttackStateView {
    pub summary: SummaryView,
    pub batch_pos: nat,
}

/// The transient cursor of a run: the live summary and the position
/// within the current batch of `display_periodicity` sends.
#[derive(Debug)]
pub struct AttackState {
    summary: TestSummary,
    batch_pos: usize,
}

impl View for AttackState {
    type V = AttackStateView;

    closed spec fn view(&self) -> AttackStateView {
        AttackStateView { summary: self.summary@, batch_pos: self.batch_pos as nat }
    }
}

impl AttackState {
    /// The state at the moment the send cycle begins: both counters at
    /// zero, the clock started, the first batch empty.
    pub fn begin() -> (r: AttackState)
        ensures
            r@.summary.bytes_sent == 0,
            r@.summary.packets_sent == 0,
            r@.batch_pos == 0,
    {
        AttackState { summary: TestSummary::new(), batch_pos: 0 }
    }

    /// The live summary, for progress reports and clock readings.
    pub fn summary(&self) -> (r: &TestSummary)
        ensures
            r@ == self@.summary,
    {
        &self.summary
    }

    /// Give the summary up when the run is over.
    pub fn into_summary(self) -> (r: TestSummary)
        ensures
            r@ == self@.summary,
    {
        self.summary
    }

    /// Record one successful send of `bytes_sent` bytes, against the
    /// clock reading `elapsed`, and decide how the run goes on. The
    /// summary grows by one packet; the verdict is `Stop` exactly when
    /// the termination policy fires on the updated summary, and `Report`
    /// exactly when the send completed a batch of `display_periodicity`
    /// sends without the policy firing.
    pub fn on_send_success(&mut self, bytes_sent: usize, elapsed: TimeSpan, config: &AttackConfig) -> (v:
        Verdict)
        requires
            config.wf(),
            elapsed.wf(),
            old(self)@.batch_pos < config.display_periodicity,
            old(self)@.summary.packets_sent < config.packets,
            old(self)@.summary.bytes_sent + bytes_sent <= usize::MAX,
        ensures
            final(self)@.summary == updated(old(self)@.summary, bytes_sent as nat, 1),
            (v == Verdict::Stop) == spec_should_stop(
                elapsed,
                old(self)@.summary.packets_sent + 1,
                *config,
            ),
            final(self)@.summary.packets_sent <= config.packets,
            v != Verdict::Stop ==> final(self)@.batch_pos == (if old(self)@.batch_pos + 1
                == config.display_periodicity {
                0nat
            } else {
                old(self)@.batch_pos + 1
            }),
            v != Verdict::Stop ==> ((v == Verdict::Report) == (old(self)@.batch_pos + 1
                == config.display_periodicity)),
            v == Verdict::Stop ==> final(self)@.batch_pos == old(self)@.batch_pos,
    {
        self.summary.update(bytes_sent, 1);
        if check_end_cond(&self.summary, elapsed, config) {
            return Verdict::Stop;
        }
        self.batch_pos += 1;
        if self.batch_pos == config.display_periodicity {
            self.batch_pos = 0;
            Verdict::Report
        } else {
            Verdict::Continue
        }
    }
}

/// Law: while a run is in progress (fewer packets sent than configured),
/// one more successful send never pushes the counter past the limit, and
/// the moment the counter reaches the limit the termination policy fires,
/// whatever the clock reads.
pub proof fn lemma_packet_limit_exact(
    s: SummaryView,
    bytes: nat,
    elapsed: TimeSpan,
    config: AttackConfig,
)
    requires
        s.packets_sent < config.packets,
    ensures
        updated(s, bytes, 1).packets_sent <= config.packets,
        updated(s, bytes, 1).packets_sent == config.packets ==> spec_should_stop(
            elapsed,
            updated(s, bytes, 1).packets_sent,
            config,
        ),
{
}

/// Law: once the elapsed time has reached the configured duration, the
/// termination policy fires no matter how many packets are still owed.
pub proof fn lemma_duration_limit_stops(elapsed: TimeSpan, packets_sent: nat, config: AttackConfig)
    requires
        elapsed.as_nanos() >= config.duration.as_nanos(),
    ensures
        spec_should_stop(elapsed, packets_sent, config),
{
}

} // verus!
