//! A throughput/latency benchmarking client core for a service that accepts
//! length-delimited binary messages and answers one acknowledgment per
//! accepted message.
//!
//! The library holds the measurement protocol itself: the length-prefixed
//! frame codec, the deterministic transaction generator, the confirmation
//! tracker that drains acknowledgments under a deadline, and the benchmark
//! orchestrator that drives the phases and derives the final statistics.
//! Everything that touches the network lives outside, hands the library plain
//! values, and takes plain values back.

pub mod bench;
pub mod codec;
pub mod encoding;
pub mod tracker;
pub mod transaction;
