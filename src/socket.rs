//! What the engines need to know of a socket's answers.
use vstd::prelude::*;

verus! {

/// The error taxonomy of a socket's send, receive and flush calls.
#[derive(Clone, Copy, Debug, PartialEq, Eq, Structural)]
pub enum SocketError {
    /// The ring slot or resource is momentarily busy.
    InUse,
    /// Nothing is waiting to be received.
    NoPacketsAvailable,
    /// A packet arrived but was filtered out.
    PacketFiltered,
    /// Anything else: the socket is no longer usable.
    Fatal,
}

/// Errors that are the normal idle state of a non-blocking socket.
pub open spec fn is_transient(e: SocketError) -> bool {
    e != SocketError::Fatal
}

impl SocketError {
    /// Whether the error is expected steady-state noise rather than a
    /// failure.
    pub fn transient(&self) -> (r: bool)
        ensures
            r == is_transient(*self),
    {
        match self {
            SocketError::Fatal => false,
            _ => true,
        }
    }
}

/// The capabilities that the hot loops use of a packet socket session.
/// The session is driven by the hot loop's thread alone. Nothing is assumed
/// of the answers: the engines are verified for every one of them.
pub trait PacketSocket {
    /// Writes `payload` at the start of ring slot `slot`, for zero-copy
    /// transmission.
    fn fill_slot(&mut self, slot: u32, payload: &[u8]) -> Result<(), SocketError>;

    /// Queues a copy of `payload` for transmission.
    fn send(&mut self, payload: &[u8]) -> Result<(), SocketError>;

    /// Queues the first `len` bytes of ring slot `slot`, without a copy.
    fn send_slot(&mut self, slot: u32, len: usize) -> Result<(), SocketError>;

    /// Commits what was queued.
    fn flush(&mut self) -> Result<(), SocketError>;

    /// Takes one packet, if one is there.
    fn recv(&mut self) -> Result<(), SocketError>;
}

} // verus!
