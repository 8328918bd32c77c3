//! A library for a configurable UDP traffic generator: a pseudo-random
//! payload of a fixed size is sent repeatedly toward one endpoint until a
//! duration limit or a packet-count limit is reached, while a running
//! summary tracks bytes, packets and throughput.
//!
//! The modules here hold the decision logic of such a run: the validated
//! configuration, the statistics accumulator, the termination policy and
//! the payload generator. The socket itself, logging and the command line
//! live with the caller, which feeds plain values in and out.

pub mod attack;
pub mod config;
pub mod summary;
pub mod timespan;
