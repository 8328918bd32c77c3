//! The validated configuration of one run. The caller parses and checks
//! the raw command line; what reaches the run's logic is this struct of
//! plain values, whose invariant `wf` the rest of the library requires.

pub mod parsers;

pub use parsers::IntParseError;
pub use parsers::NonZeroUsizeError;
pub use parsers::PacketLengthError;
pub use parsers::parse_non_zero_usize;
pub use parsers::parse_packet_length;

use vstd::prelude::*;

use crate::timespan::TimeSpan;

verus! {

/// The smallest payload one packet may carry.
pub const MIN_PACKET_LENGTH: usize = 1;

/// The largest payload one packet may carry.
pub const MAX_PACKET_LENGTH: usize = 65000;

/// The pre-validated parameters that govern one run. The two endpoint
/// addresses stay with the caller that owns the socket.
#[derive(Debug, Clone, Copy)]
pub struct AttackConfig {
    /// The longest the run may go on.
    pub duration: TimeSpan,
    /// The size of each packet's payload, in bytes.
    pub length: usize,
    /// How long to wait before the first send.
    pub wait: TimeSpan,
    /// The delay inserted after every send; zero means none.
    pub send_periodicity: TimeSpan,
    /// How many packets one progress-report batch holds.
    pub display_periodicity: usize,
    /// How many packets the run sends at most.
    pub packets: usize,
    /// The per-send timeout; absent means each send may block without
    /// bound.
    pub send_timeout: Option<TimeSpan>,
    /// Whether the caller's logging is verbose.
    pub debug: bool,
}

impl AttackConfig {
    /// The invariant of a validated configuration.
    pub open spec fn wf(self) -> bool {
        &&& MIN_PACKET_LENGTH <= self.length <= MAX_PACKET_LENGTH
        &&& self.display_periodicity >= 1
        &&& self.packets >= 1
        &&& self.duration.wf()
        &&& self.wait.wf()
        &&& self.send_periodicity.wf()
        &&& (self.send_timeout matches Some(t) ==> t.wf())
    }

    /// Whether this configuration satisfies the invariant `wf`; a caller
    /// that assembled one from raw values checks it here.
    pub fn is_valid(&self) -> (r: bool)
        ensures
            r == self.wf(),
    {
        MIN_PACKET_LENGTH <= self.length && self.length <= MAX_PACKET_LENGTH
            && self.display_periodicity >= 1 && self.packets >= 1 && self.duration.nanos
            < crate::timespan::NANOS_PER_SEC && self.wait.nanos < crate::timespan::NANOS_PER_SEC
            && self.send_periodicity.nanos < crate::timespan::NANOS_PER_SEC && (match self
            .send_timeout {
            Some(t) => t.nanos < crate::timespan::NANOS_PER_SEC,
            None => true,
        })
    }
}

} // verus!
