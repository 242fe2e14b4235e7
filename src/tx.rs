//! The transmit hot loop as a state machine. The caller performs each
//! action that `next_action` names on the socket and hands the outcome back;
//! every decision (when to send, which slot, when to flush, when to publish,
//! when to stop) is taken here.
use crate::accumulator::{
    boundary_below, lemma_publish_counts_all, record_step, record_steps, AccumulatorView,
    LocalAccumulator, PUBLISH_THRESHOLD,
};
use crate::config::{BenchmarkConfig, Direction, TxMode};
use vstd::prelude::*;

verus! {

/// Where the transmit loop stands.
#[derive(Clone, Copy, Debug, PartialEq, Eq, Structural)]
pub enum TxPhase {
    /// Zero-copy only: writing the payload into the ring, slot by slot.
    Filling,
    /// About to read the termination flag, once per batch.
    Polling,
    /// Sending the packets of a batch.
    Batching,
    /// Committing the batch.
    Flushing,
    /// Left the loop after seeing the flag.
    Stopped,
    /// Left the loop after a failed flush, or a failed fill of the ring.
    Failed,
}

/// What the caller does next.
#[derive(Clone, Copy, Debug, PartialEq, Eq, Structural)]
pub enum TxAction {
    /// Write the payload into this ring slot.
    FillSlot { slot: u32 },
    /// Read the termination flag.
    PollFlag,
    /// Hand the payload to the socket, which copies it.
    Send,
    /// Hand this pre-filled slot to the socket.
    SendSlot { slot: u32 },
    /// Commit what was queued.
    Flush,
    /// Stop: the flag was set.
    Exit,
    /// Stop with an error: a flush, or a fill of the ring, failed.
    Abort,
}

/// An outcome handed back to the engine.
#[derive(Clone, Copy, Debug, PartialEq, Eq, Structural)]
pub enum TxEvent {
    Filled { ok: bool },
    Flag { stop: bool },
    Sent { accepted: bool },
    Flushed { ok: bool },
}

/// Mathematical view of a [`TxEngine`].
pub struct TxView {
    pub mode: TxMode,
    pub batch_size: nat,
    pub ring_slots: nat,
    pub phase: TxPhase,
    pub filled: nat,
    pub in_batch: nat,
    pub acc: AccumulatorView,
}

/// The phase that follows a send (accepted or not) that left `in_batch`
/// packets in the batch.
pub open spec fn after_batch_phase(in_batch: nat, batch_size: nat) -> TxPhase {
    if in_batch >= batch_size {
        TxPhase::Flushing
    } else {
        TxPhase::Batching
    }
}

/// The action that the engine asks for in state `v`.
pub open spec fn tx_action(v: TxView) -> TxAction {
    match v.phase {
        TxPhase::Filling => TxAction::FillSlot { slot: v.filled as u32 },
        TxPhase::Polling => TxAction::PollFlag,
        TxPhase::Batching => if v.mode == TxMode::Copy {
            TxAction::Send
        } else {
            TxAction::SendSlot { slot: (v.acc.count % v.ring_slots) as u32 }
        },
        TxPhase::Flushing => TxAction::Flush,
        TxPhase::Stopped => TxAction::Exit,
        TxPhase::Failed => TxAction::Abort,
    }
}

/// The state after an attempt to fill one slot of the ring; a failure
/// ends the run before the loop starts.
pub open spec fn tx_after_fill(v: TxView, ok: bool) -> TxView {
    if v.phase == TxPhase::Filling && !ok {
        TxView { phase: TxPhase::Failed, ..v }
    } else if v.phase == TxPhase::Filling {
        let f = v.filled + 1;
        TxView {
            filled: f,
            phase: if f >= v.ring_slots { TxPhase::Polling } else { TxPhase::Filling },
            ..v
        }
    } else {
        v
    }
}

/// The state after reading the flag.
pub open spec fn tx_after_flag(v: TxView, stop: bool) -> TxView {
    if v.phase == TxPhase::Polling {
        if stop {
            TxView { phase: TxPhase::Stopped, ..v }
        } else {
            TxView { phase: after_batch_phase(0, v.batch_size), in_batch: 0, ..v }
        }
    } else {
        v
    }
}

/// The state after a send: an accepted one is counted, a refused one ends
/// the batch early.
pub open spec fn tx_after_send(v: TxView, accepted: bool) -> TxView {
    if v.phase == TxPhase::Batching {
        if accepted {
            TxView {
                phase: after_batch_phase(v.in_batch + 1, v.batch_size),
                in_batch: v.in_batch + 1,
                acc: record_step(v.acc),
                ..v
            }
        } else {
            TxView { phase: TxPhase::Flushing, ..v }
        }
    } else {
        v
    }
}

/// The state after a flush: back to the flag, or out with an error.
pub open spec fn tx_after_flush(v: TxView, ok: bool) -> TxView {
    if v.phase == TxPhase::Flushing {
        TxView { phase: if ok { TxPhase::Polling } else { TxPhase::Failed }, ..v }
    } else {
        v
    }
}

/// One step of the engine on any event; an event that does not answer the
/// current action changes nothing.
pub open spec fn tx_step(v: TxView, e: TxEvent) -> TxView {
    match e {
        TxEvent::Filled { ok } => tx_after_fill(v, ok),
        TxEvent::Flag { stop } => tx_after_flag(v, stop),
        TxEvent::Sent { accepted } => tx_after_send(v, accepted),
        TxEvent::Flushed { ok } => tx_after_flush(v, ok),
    }
}

/// The value to store into the shared counter after a step from `v` on
/// `e`, if any.
pub open spec fn tx_publish(v: TxView, e: TxEvent) -> Option<u64> {
    let w = tx_step(v, e);
    if v.phase == TxPhase::Batching && e == (TxEvent::Sent { accepted: true }) && w.acc.count
        % (PUBLISH_THRESHOLD as nat) == 0 {
        Some(w.acc.count as u64)
    } else {
        None
    }
}

/// The transmit hot loop's state.
pub struct TxEngine {
    mode: TxMode,
    batch_size: u32,
    ring_slots: u32,
    phase: TxPhase,
    filled: u32,
    in_batch: u32,
    acc: LocalAccumulator,
}

impl View for TxEngine {
    type V = TxView;

    closed spec fn view(&self) -> TxView {
        TxView {
            mode: self.mode,
            batch_size: self.batch_size as nat,
            ring_slots: self.ring_slots as nat,
            phase: self.phase,
            filled: self.filled as nat,
            in_batch: self.in_batch as nat,
            acc: self.acc@,
        }
    }
}

/// The invariant of a transmit engine's view.
pub open spec fn tx_wf(v: TxView) -> bool {
    &&& v.acc.published <= v.acc.count
    &&& boundary_below(v.acc.count) <= v.acc.published
    &&& v.in_batch <= v.batch_size
    &&& v.batch_size <= u32::MAX
    &&& v.ring_slots <= u32::MAX
    &&& v.filled <= v.ring_slots
    &&& v.mode == TxMode::ZeroCopy ==> v.ring_slots > 0
    &&& v.phase == TxPhase::Filling ==> v.mode == TxMode::ZeroCopy && v.filled < v.ring_slots
    &&& v.phase == TxPhase::Batching ==> v.in_batch < v.batch_size
}

impl TxEngine {
    pub open spec fn wf(&self) -> bool {
        &&& tx_wf(self@)
        &&& self.acc_wf()
    }

    /// The accumulator inside is well formed.
    pub closed spec fn acc_wf(&self) -> bool {
        self.acc.wf()
    }

    /// An engine for a transmit configuration: zero-copy starts by filling
    /// the ring, copy mode starts at the flag.
    pub fn new(config: &BenchmarkConfig) -> (r: TxEngine)
        requires
            config.wf(),
            config@.direction == Direction::Send,
        ensures
            r.wf(),
            r@ == (TxView {
                mode: config@.mode,
                batch_size: config@.batch_size,
                ring_slots: config@.ring_slots,
                phase: if config@.mode == TxMode::ZeroCopy {
                    TxPhase::Filling
                } else {
                    TxPhase::Polling
                },
                filled: 0,
                in_batch: 0,
                acc: AccumulatorView { count: 0, published: 0 },
            }),
    {
        let mode = config.mode();
        TxEngine {
            mode,
            batch_size: config.batch_size(),
            ring_slots: config.ring_slots(),
            phase: if mode == TxMode::ZeroCopy {
                TxPhase::Filling
            } else {
                TxPhase::Polling
            },
            filled: 0,
            in_batch: 0,
            acc: LocalAccumulator::new(),
        }
    }

    /// The action the caller performs next.
    pub fn next_action(&self) -> (r: TxAction)
        requires
            self.wf(),
        ensures
            r == tx_action(self@),
    {
        match self.phase {
            TxPhase::Filling => TxAction::FillSlot { slot: self.filled },
            TxPhase::Polling => TxAction::PollFlag,
            TxPhase::Batching => {
                if self.mode == TxMode::Copy {
                    TxAction::Send
                } else {
                    let c = self.acc.count();
                    let slot = c % (self.ring_slots as u64);
                    TxAction::SendSlot { slot: slot as u32 }
                }
            },
            TxPhase::Flushing => TxAction::Flush,
            TxPhase::Stopped => TxAction::Exit,
            TxPhase::Failed => TxAction::Abort,
        }
    }

    /// Where the loop stands.
    pub fn phase(&self) -> (r: TxPhase)
        ensures
            r == self@.phase,
    {
        self.phase
    }

    /// Packets accepted by the socket so far.
    pub fn sent(&self) -> (r: u64)
        requires
            self.wf(),
        ensures
            r == self@.acc.count,
    {
        self.acc.count()
    }

    /// The value last handed out for publishing.
    pub fn published(&self) -> (r: u64)
        requires
            self.wf(),
        ensures
            r == self@.acc.published,
    {
        self.acc.published()
    }

    /// Takes the outcome of filling the slot named by `FillSlot`.
    pub fn on_filled(&mut self, ok: bool)
        requires
            old(self).wf(),
        ensures
            final(self).wf(),
            final(self)@ == tx_after_fill(old(self)@, ok),
    {
        if self.phase == TxPhase::Filling && !ok {
            self.phase = TxPhase::Failed;
        } else if self.phase == TxPhase::Filling {
            self.filled = self.filled + 1;
            if self.filled >= self.ring_slots {
                self.phase = TxPhase::Polling;
            }
        }
    }

    /// Takes the value read from the termination flag.
    pub fn on_flag(&mut self, stop: bool)
        requires
            old(self).wf(),
        ensures
            final(self).wf(),
            final(self)@ == tx_after_flag(old(self)@, stop),
    {
        if self.phase == TxPhase::Polling {
            if stop {
                self.phase = TxPhase::Stopped;
            } else {
                self.in_batch = 0;
                self.phase = if self.batch_size == 0 {
                    TxPhase::Flushing
                } else {
                    TxPhase::Batching
                };
            }
        }
    }

    /// Takes the outcome of a send. Returns the running count to store into
    /// the shared counter when an accepted send lands on a batch boundary.
    pub fn on_send(&mut self, accepted: bool) -> (r: Option<u64>)
        requires
            old(self).wf(),
            old(self)@.acc.count < u64::MAX,
        ensures
            final(self).wf(),
            final(self)@ == tx_after_send(old(self)@, accepted),
            r == tx_publish(old(self)@, TxEvent::Sent { accepted }),
    {
        if self.phase == TxPhase::Batching {
            if accepted {
                let r = self.acc.record();
                self.in_batch = self.in_batch + 1;
                if self.in_batch >= self.batch_size {
                    self.phase = TxPhase::Flushing;
                }
                r
            } else {
                self.phase = TxPhase::Flushing;
                None
            }
        } else {
            None
        }
    }

    /// Takes the outcome of a flush. A failed flush ends the run: the
    /// engine never asks for a retry.
    pub fn on_flush(&mut self, ok: bool)
        requires
            old(self).wf(),
        ensures
            final(self).wf(),
            final(self)@ == tx_after_flush(old(self)@, ok),
    {
        if self.phase == TxPhase::Flushing {
            self.phase = if ok {
                TxPhase::Polling
            } else {
                TxPhase::Failed
            };
        }
    }
}

/// Whether event `e` answers the action that state `v` asks for.
pub open spec fn tx_answers(v: TxView, e: TxEvent) -> bool {
    match v.phase {
        TxPhase::Filling => e is Filled,
        TxPhase::Polling => e is Flag,
        TxPhase::Batching => e is Sent,
        TxPhase::Flushing => e is Flushed,
        TxPhase::Stopped | TxPhase::Failed => true,
    }
}

/// The state after the events `evs`, in order, from `v`.
pub open spec fn tx_run(v: TxView, evs: Seq<TxEvent>) -> TxView
    decreases evs.len(),
{
    if evs.len() == 0 {
        v
    } else {
        tx_run(tx_step(v, evs[0]), evs.drop_first())
    }
}

/// Each event of `evs` answers the action asked for when it comes, and
/// every read of the flag finds it set.
pub open spec fn tx_answered_with_stop(v: TxView, evs: Seq<TxEvent>) -> bool
    decreases evs.len(),
{
    evs.len() == 0 || {
        &&& tx_answers(v, evs[0])
        &&& evs[0] is Flag ==> evs[0] == TxEvent::Flag { stop: true }
        &&& tx_answered_with_stop(tx_step(v, evs[0]), evs.drop_first())
    }
}

/// Socket calls left before the engine next reads the flag.
pub open spec fn tx_calls_to_poll(v: TxView) -> nat {
    match v.phase {
        TxPhase::Filling => (v.ring_slots - v.filled) as nat,
        TxPhase::Batching => (v.batch_size - v.in_batch + 1) as nat,
        TxPhase::Flushing => 1,
        _ => 0,
    }
}

/// Every step keeps the engine's invariant.
pub proof fn lemma_tx_step_wf(v: TxView, e: TxEvent)
    requires
        tx_wf(v),
    ensures
        tx_wf(tx_step(v, e)),
{
    if v.phase == TxPhase::Batching && e == (TxEvent::Sent { accepted: true }) {
        let n = v.acc.count + 1;
        assert(v.acc.count % 1024 + 1 == n % 1024 || n % 1024 == 0);
    }
}

/// Once stopped or failed, the engine stays where it is.
pub proof fn lemma_tx_exit_is_final(v: TxView, evs: Seq<TxEvent>)
    requires
        v.phase == TxPhase::Stopped || v.phase == TxPhase::Failed,
    ensures
        tx_run(v, evs) == v,
    decreases evs.len(),
{
    if evs.len() > 0 {
        lemma_tx_exit_is_final(tx_step(v, evs[0]), evs.drop_first());
    }
}

/// Within one batch: from any state of the hot loop, the engine reads the
/// flag after at most one batch of sends and one flush, and once the flag
/// is set it leaves the loop at that read, however busy the socket is.
pub proof fn lemma_tx_stops_within_one_batch(v: TxView, evs: Seq<TxEvent>)
    requires
        tx_wf(v),
        tx_answered_with_stop(v, evs),
        evs.len() > tx_calls_to_poll(v),
    ensures
        v.phase != TxPhase::Filling ==> tx_calls_to_poll(v) <= v.batch_size + 1,
        tx_run(v, evs).phase == TxPhase::Stopped || tx_run(v, evs).phase == TxPhase::Failed,
    decreases evs.len(),
{
    let w = tx_step(v, evs[0]);
    let rest = evs.drop_first();
    if v.phase == TxPhase::Stopped || v.phase == TxPhase::Failed {
        lemma_tx_exit_is_final(v, evs);
    } else if v.phase == TxPhase::Polling {
        lemma_tx_exit_is_final(w, rest);
    } else {
        lemma_tx_step_wf(v, evs[0]);
        assert(tx_calls_to_poll(w) + 1 <= tx_calls_to_poll(v));
        lemma_tx_stops_within_one_batch(w, rest);
    }
}

/// Sends that the socket accepted among `evs`, applied in order from `v`.
pub open spec fn tx_accepted(v: TxView, evs: Seq<TxEvent>) -> nat
    decreases evs.len(),
{
    if evs.len() == 0 {
        0
    } else {
        let counted: nat = if v.phase == TxPhase::Batching && evs[0] == (TxEvent::Sent {
            accepted: true,
        }) {
            1
        } else {
            0
        };
        counted + tx_accepted(tx_step(v, evs[0]), evs.drop_first())
    }
}

proof fn lemma_record_steps_front(a: AccumulatorView, k: nat)
    ensures
        record_steps(record_step(a), k) == record_steps(a, k + 1),
    decreases k,
{
    if k > 0 {
        lemma_record_steps_front(a, (k - 1) as nat);
        assert(record_steps(a, k + 1) == record_step(record_steps(a, k)));
    } else {
        assert(record_steps(a, 1) == record_step(record_steps(a, 0)));
    }
}

proof fn lemma_tx_run_counts(v: TxView, evs: Seq<TxEvent>)
    ensures
        tx_run(v, evs).acc == record_steps(v.acc, tx_accepted(v, evs)),
    decreases evs.len(),
{
    if evs.len() > 0 {
        let w = tx_step(v, evs[0]);
        lemma_tx_run_counts(w, evs.drop_first());
        if v.phase == TxPhase::Batching && evs[0] == (TxEvent::Sent { accepted: true }) {
            lemma_record_steps_front(v.acc, tx_accepted(w, evs.drop_first()));
        }
    }
}

/// No double counting and no loss: whatever the socket answers, a transmit
/// loop that started from zero has counted exactly the sends the socket
/// accepted, and has published the last batch boundary of that count, less
/// than one batch behind it.
pub proof fn lemma_tx_publishes_accepted_sends(v: TxView, evs: Seq<TxEvent>)
    requires
        v.acc == (AccumulatorView { count: 0, published: 0 }),
    ensures
        tx_run(v, evs).acc.count == tx_accepted(v, evs),
        tx_run(v, evs).acc.published == boundary_below(tx_accepted(v, evs)),
        tx_accepted(v, evs) - tx_run(v, evs).acc.published < PUBLISH_THRESHOLD,
{
    lemma_tx_run_counts(v, evs);
    lemma_publish_counts_all(tx_accepted(v, evs));
}

} // verus!
