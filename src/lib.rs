//! Decision logic of a packet-rate benchmark: a hot loop that sends or receives
//! as fast as a socket allows, a batched publish of its running count into a
//! shared counter, a meter that reports per-interval deltas, and a watchdog
//! that bounds the run.
pub mod accumulator;
pub mod config;
pub mod experiment;
pub mod hotloop;
pub mod meter;
pub mod mock;
pub mod rx;
pub mod shared;
pub mod socket;
pub mod tx;
