//! State shared between the hot loop, the meter and the termination sources:
//! a stop flag and a published packet count, both lock-free atomics behind
//! reference-counted handles.
//!
//! What another thread stored is not known to the prover, so reads here
//! promise nothing of their value; every decision taken on a read value is
//! made by the verified state machines that receive it as an argument.
use std::sync::atomic::{AtomicBool, AtomicU64, Ordering};
use std::sync::Arc;
use vstd::prelude::*;

verus! {

/// Relies on `Arc::clone`: a second handle to the same shared value.
#[verifier::external_body]
fn share_flag(a: &Arc<AtomicBool>) -> (r: Arc<AtomicBool>)
    ensures
        r == *a,
{
    Arc::clone(a)
}

/// Relies on `Arc::clone`: a second handle to the same shared value.
#[verifier::external_body]
fn share_count(a: &Arc<AtomicU64>) -> (r: Arc<AtomicU64>)
    ensures
        r == *a,
{
    Arc::clone(a)
}

/// The single shutdown signal. It starts cleared and is only ever set:
/// no operation here clears it, so once set it stays set.
pub struct TerminationFlag {
    stop: Arc<AtomicBool>,
}

impl TerminationFlag {
    /// A cleared flag, for one benchmark run.
    pub fn new() -> (r: TerminationFlag) {
        TerminationFlag { stop: Arc::new(AtomicBool::new(false)) }
    }

    /// Another handle to the same flag, for another thread.
    pub fn handle(&self) -> (r: TerminationFlag)
        ensures
            r == *self,
    {
        TerminationFlag { stop: share_flag(&self.stop) }
    }

    /// Sets the flag. A plain store that neither blocks nor allocates, so
    /// an interrupt handler may call it; setting it again changes nothing.
    pub fn request_stop(&self) {
        self.stop.store(true, Ordering::Relaxed);
    }

    /// Whether some source has set the flag.
    pub fn is_stopped(&self) -> (r: bool) {
        self.stop.load(Ordering::Relaxed)
    }
}

/// The running count that the hot loop publishes and the meter reads.
pub struct PacketCounter {
    total: Arc<AtomicU64>,
}

impl PacketCounter {
    /// A counter at zero, for one benchmark run.
    pub fn new() -> (r: PacketCounter) {
        PacketCounter { total: Arc::new(AtomicU64::new(0)) }
    }

    /// Another handle to the same counter, for another thread.
    pub fn handle(&self) -> (r: PacketCounter)
        ensures
            r == *self,
    {
        PacketCounter { total: share_count(&self.total) }
    }

    /// Stores an absolute running count (a store, not an increment), with
    /// release ordering so that a reader that sees it sees what came before.
    pub fn publish(&self, total: u64) {
        self.total.store(total, Ordering::Release);
    }

    /// Reads the last published count, with acquire ordering.
    pub fn read(&self) -> (r: u64) {
        self.total.load(Ordering::Acquire)
    }
}

} // verus!
