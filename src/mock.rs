//! An in-memory socket that stands in for a packet-capture session: a ring
//! of slots, a queue of frames waiting for a flush, and the log of frames
//! that flushes committed. Its failures are chosen when it is made, so a
//! run of the engines against it is repeatable.
use crate::socket::{PacketSocket, SocketError};
use vstd::prelude::*;

verus! {

/// Mathematical view of a [`MockSocket`]; frames are recorded by length.
pub struct MockView {
    pub slots: Seq<usize>,
    pub pending: Seq<usize>,
    pub committed: Seq<usize>,
    pub flushes: nat,
    pub fail_flush_at: nat,
    pub recv_error: Option<SocketError>,
    pub recvs: nat,
}

/// A socket that records what it is asked to do.
pub struct MockSocket {
    slots: Vec<usize>,
    pending: Vec<usize>,
    committed: Vec<usize>,
    flushes: u64,
    fail_flush_at: u64,
    recv_error: Option<SocketError>,
    recvs: u64,
}

impl View for MockSocket {
    type V = MockView;

    closed spec fn view(&self) -> MockView {
        MockView {
            slots: self.slots@,
            pending: self.pending@,
            committed: self.committed@,
            flushes: self.flushes as nat,
            fail_flush_at: self.fail_flush_at as nat,
            recv_error: self.recv_error,
            recvs: self.recvs as nat,
        }
    }
}

/// The mock after slot `slot` was filled with `len` bytes.
pub open spec fn mock_fill(v: MockView, slot: int, len: usize) -> MockView {
    if 0 <= slot < v.slots.len() {
        MockView { slots: v.slots.update(slot, len), ..v }
    } else {
        v
    }
}

/// Whether the ring has room for one more queued frame.
pub open spec fn mock_has_room(v: MockView) -> bool {
    v.pending.len() < v.slots.len()
}

/// The answer to a zero-copy send of `len` bytes from slot `slot`.
pub open spec fn mock_send_slot_result(v: MockView, slot: int, len: usize) -> Result<(), SocketError> {
    if !(0 <= slot < v.slots.len()) || len > v.slots[slot] {
        Err(SocketError::Fatal)
    } else if !mock_has_room(v) {
        Err(SocketError::InUse)
    } else {
        Ok(())
    }
}

/// The mock after a zero-copy send of `len` bytes from slot `slot`.
pub open spec fn mock_send_slot(v: MockView, slot: int, len: usize) -> MockView {
    if mock_send_slot_result(v, slot, len) is Ok {
        MockView { pending: v.pending.push(len), ..v }
    } else {
        v
    }
}

/// Whether the next flush is the one chosen to fail.
pub open spec fn mock_flush_fails(v: MockView) -> bool {
    v.flushes + 1 == v.fail_flush_at
}

/// The mock after a flush: the queue is committed, or dropped by the
/// failing flush.
pub open spec fn mock_flush(v: MockView) -> MockView {
    MockView {
        pending: Seq::empty(),
        committed: if mock_flush_fails(v) {
            v.committed
        } else {
            v.committed + v.pending
        },
        flushes: v.flushes + 1,
        ..v
    }
}

impl MockSocket {
    /// A socket with `ring_slots` empty slots whose flush number
    /// `fail_flush_at` (counted from 1; 0 for none) fails, and whose
    /// receives all fail with `recv_error` or, when it is `None`, all
    /// succeed.
    pub fn new(ring_slots: usize, fail_flush_at: u64, recv_error: Option<SocketError>) -> (r:
        MockSocket)
        ensures
            r@ == (MockView {
                slots: Seq::new(ring_slots as nat, |_i: int| 0usize),
                pending: Seq::empty(),
                committed: Seq::empty(),
                flushes: 0,
                fail_flush_at: fail_flush_at as nat,
                recv_error,
                recvs: 0,
            }),
    {
        let mut slots: Vec<usize> = Vec::new();
        let mut i: usize = 0;
        while i < ring_slots
            invariant
                i <= ring_slots,
                slots@ == Seq::new(i as nat, |_j: int| 0usize),
            decreases ring_slots - i,
        {
            slots.push(0);
            i = i + 1;
            assert(slots@ =~= Seq::new(i as nat, |_j: int| 0usize));
        }
        MockSocket {
            slots,
            pending: Vec::new(),
            committed: Vec::new(),
            flushes: 0,
            fail_flush_at,
            recv_error,
            recvs: 0,
        }
    }

    /// Writes `payload` into ring slot `slot`; a slot outside the ring is a
    /// fatal error.
    pub fn fill_slot(&mut self, slot: u32, payload: &[u8]) -> (r: Result<(), SocketError>)
        ensures
            final(self)@ == mock_fill(old(self)@, slot as int, payload@.len() as usize),
            r is Ok <==> slot < old(self)@.slots.len(),
            r is Err ==> r == Err::<(), SocketError>(SocketError::Fatal),
    {
        let s = slot as usize;
        if s < self.slots.len() {
            self.slots.set(s, payload.len());
            Ok(())
        } else {
            Err(SocketError::Fatal)
        }
    }

    /// Queues a copy of `payload`; refused with `InUse` while the ring is
    /// full.
    pub fn send(&mut self, payload: &[u8]) -> (r: Result<(), SocketError>)
        ensures
            mock_has_room(old(self)@) ==> r is Ok && final(self)@ == (MockView {
                pending: old(self)@.pending.push(payload@.len() as usize),
                ..old(self)@
            }),
            !mock_has_room(old(self)@) ==> r == Err::<(), SocketError>(SocketError::InUse)
                && final(self)@ == old(self)@,
    {
        if self.pending.len() < self.slots.len() {
            self.pending.push(payload.len());
            Ok(())
        } else {
            Err(SocketError::InUse)
        }
    }

    /// Queues `len` bytes of slot `slot` without copying them.
    pub fn send_slot(&mut self, slot: u32, len: usize) -> (r: Result<(), SocketError>)
        ensures
            r == mock_send_slot_result(old(self)@, slot as int, len),
            final(self)@ == mock_send_slot(old(self)@, slot as int, len),
    {
        let s = slot as usize;
        if s >= self.slots.len() || len > self.slots[s] {
            Err(SocketError::Fatal)
        } else if self.pending.len() >= self.slots.len() {
            Err(SocketError::InUse)
        } else {
            self.pending.push(len);
            Ok(())
        }
    }

    /// Commits the queued frames, except on the flush chosen to fail,
    /// which drops them and reports a fatal error.
    pub fn flush(&mut self) -> (r: Result<(), SocketError>)
        requires
            old(self)@.flushes < u64::MAX,
        ensures
            final(self)@ == mock_flush(old(self)@),
            r is Err <==> mock_flush_fails(old(self)@),
            r is Err ==> r == Err::<(), SocketError>(SocketError::Fatal),
    {
        self.flushes = self.flushes + 1;
        if self.flushes == self.fail_flush_at {
            self.pending.clear();
            Err(SocketError::Fatal)
        } else {
            self.committed.append(&mut self.pending);
            Ok(())
        }
    }

    /// Receives one packet: the error chosen at creation, if any.
    pub fn recv(&mut self) -> (r: Result<(), SocketError>)
        requires
            old(self)@.recvs < u64::MAX,
        ensures
            final(self)@ == (MockView { recvs: old(self)@.recvs + 1, ..old(self)@ }),
            r == (match old(self)@.recv_error {
                Some(e) => Err(e),
                None => Ok(()),
            }),
    {
        self.recvs = self.recvs + 1;
        match self.recv_error {
            Some(e) => Err(e),
            None => Ok(()),
        }
    }

    /// Lengths of the frames committed so far, in order.
    pub fn committed(&self) -> (r: &Vec<usize>)
        ensures
            r@ == self@.committed,
    {
        &self.committed
    }

    /// Frames queued and not yet flushed.
    pub fn pending_len(&self) -> (r: usize)
        ensures
            r == self@.pending.len(),
    {
        self.pending.len()
    }

    /// Flush calls so far.
    pub fn flushes(&self) -> (r: u64)
        ensures
            r == self@.flushes,
    {
        self.flushes
    }

    /// Receive calls so far.
    pub fn recvs(&self) -> (r: u64)
        ensures
            r == self@.recvs,
    {
        self.recvs
    }
}

/// The mock after slots `0..k` were each filled with `len` bytes.
pub open spec fn mock_fill_first(v: MockView, k: nat, len: usize) -> MockView
    decreases k,
{
    if k == 0 {
        v
    } else {
        mock_fill(mock_fill_first(v, (k - 1) as nat, len), k - 1, len)
    }
}

/// The mock after `k` zero-copy sends of `len` bytes, the `i`-th from slot
/// `i % ring`.
pub open spec fn mock_send_cycling(v: MockView, k: nat, ring: nat, len: usize) -> MockView
    decreases k,
{
    if k == 0 {
        v
    } else {
        mock_send_slot(mock_send_cycling(v, (k - 1) as nat, ring, len), (k - 1) % (ring as int), len)
    }
}

proof fn lemma_fill_first(v: MockView, k: nat, len: usize)
    requires
        k <= v.slots.len(),
    ensures
        mock_fill_first(v, k, len) == (MockView {
            slots: mock_fill_first(v, k, len).slots,
            ..v
        }),
        mock_fill_first(v, k, len).slots.len() == v.slots.len(),
        forall|i: int| 0 <= i < k ==> #[trigger] mock_fill_first(v, k, len).slots[i] == len,
    decreases k,
{
    if k > 0 {
        lemma_fill_first(v, (k - 1) as nat, len);
    }
}

proof fn lemma_send_cycling(v: MockView, k: nat, len: usize)
    requires
        k <= v.slots.len(),
        v.pending.len() == 0,
        forall|i: int| 0 <= i < v.slots.len() ==> #[trigger] v.slots[i] == len,
    ensures
        mock_send_cycling(v, k, v.slots.len(), len) == (MockView {
            pending: Seq::new(k, |_i: int| len),
            ..v
        }),
    decreases k,
{
    if k > 0 {
        let ring = v.slots.len();
        lemma_send_cycling(v, (k - 1) as nat, len);
        let w = mock_send_cycling(v, (k - 1) as nat, ring, len);
        assert((k - 1) % (ring as int) == k - 1) by (nonlinear_arith)
            requires
                0 <= k - 1 < ring,
        ;
        assert(w.pending.push(len) =~= Seq::new(k, |_i: int| len));
    } else {
        assert(v.pending =~= Seq::new(0, |_i: int| len));
    }
}

/// Zero-copy transmission: once each of the `k` ring slots holds a frame of
/// `len` bytes, `k` sends by slot reference (slot `i % k` for the `i`-th)
/// and a flush that does not fail commit exactly `k` frames of `len` bytes.
pub proof fn lemma_zero_copy_commits_each_slot(v: MockView, k: nat, len: usize)
    requires
        v.slots.len() == k,
        k > 0,
        v.pending.len() == 0,
        !mock_flush_fails(v),
    ensures
        mock_flush(mock_send_cycling(mock_fill_first(v, k, len), k, k, len)).committed
            == v.committed + Seq::new(k, |_i: int| len),
{
    lemma_fill_first(v, k, len);
    let filled = mock_fill_first(v, k, len);
    lemma_send_cycling(filled, k, len);
}

impl PacketSocket for MockSocket {
    fn fill_slot(&mut self, slot: u32, payload: &[u8]) -> (r: Result<(), SocketError>) {
        MockSocket::fill_slot(self, slot, payload)
    }

    fn send(&mut self, payload: &[u8]) -> (r: Result<(), SocketError>) {
        MockSocket::send(self, payload)
    }

    fn send_slot(&mut self, slot: u32, len: usize) -> (r: Result<(), SocketError>) {
        MockSocket::send_slot(self, slot, len)
    }

    /// A socket that has counted `u64::MAX` flushes reports every further
    /// one as fatal.
    fn flush(&mut self) -> (r: Result<(), SocketError>) {
        if self.flushes < u64::MAX {
            MockSocket::flush(self)
        } else {
            Err(SocketError::Fatal)
        }
    }

    /// A socket that has counted `u64::MAX` receives reports every further
    /// one as fatal.
    fn recv(&mut self) -> (r: Result<(), SocketError>) {
        if self.recvs < u64::MAX {
            MockSocket::recv(self)
        } else {
            Err(SocketError::Fatal)
        }
    }
}

} // verus!
