//! The receive hot loop as a state machine: read the flag, receive once,
//! classify the outcome, repeat.
use crate::accumulator::{
    boundary_below, AccumulatorView, LocalAccumulator, record_step, PUBLISH_THRESHOLD,
};
use crate::socket::{is_transient, SocketError};
use vstd::prelude::*;

verus! {

/// Where the receive loop stands.
#[derive(Clone, Copy, Debug, PartialEq, Eq, Structural)]
pub enum RxPhase {
    /// About to read the termination flag, once per receive call.
    Polling,
    /// About to call receive.
    Receiving,
    /// Left the loop after seeing the flag.
    Stopped,
    /// Left the loop after a fatal socket error.
    Failed,
}

/// What the caller does next.
#[derive(Clone, Copy, Debug, PartialEq, Eq, Structural)]
pub enum RxAction {
    PollFlag,
    Recv,
    Exit,
    Abort,
}

/// An outcome handed back to the engine.
#[derive(Clone, Copy, Debug, PartialEq, Eq, Structural)]
pub enum RxEvent {
    Flag { stop: bool },
    /// A packet was received.
    Received,
    /// The receive call returned an error.
    RecvError { error: SocketError },
}

/// Mathematical view of an [`RxEngine`].
pub struct RxView {
    pub phase: RxPhase,
    pub acc: AccumulatorView,
    pub error: Option<SocketError>,
}

pub open spec fn rx_action(v: RxView) -> RxAction {
    match v.phase {
        RxPhase::Polling => RxAction::PollFlag,
        RxPhase::Receiving => RxAction::Recv,
        RxPhase::Stopped => RxAction::Exit,
        RxPhase::Failed => RxAction::Abort,
    }
}

/// The state after reading the flag.
pub open spec fn rx_after_flag(v: RxView, stop: bool) -> RxView {
    if v.phase == RxPhase::Polling {
        RxView { phase: if stop { RxPhase::Stopped } else { RxPhase::Receiving }, ..v }
    } else {
        v
    }
}

/// The state after a receive: a packet is counted, a transient error is
/// ignored, any other error ends the run.
pub open spec fn rx_after_recv(v: RxView, outcome: Result<(), SocketError>) -> RxView {
    if v.phase == RxPhase::Receiving {
        match outcome {
            Ok(()) => RxView { phase: RxPhase::Polling, acc: record_step(v.acc), ..v },
            Err(e) => if is_transient(e) {
                RxView { phase: RxPhase::Polling, ..v }
            } else {
                RxView { phase: RxPhase::Failed, error: Some(e), ..v }
            },
        }
    } else {
        v
    }
}

pub open spec fn rx_step(v: RxView, e: RxEvent) -> RxView {
    match e {
        RxEvent::Flag { stop } => rx_after_flag(v, stop),
        RxEvent::Received => rx_after_recv(v, Ok(())),
        RxEvent::RecvError { error } => rx_after_recv(v, Err(error)),
    }
}

/// The value to store into the shared counter after a receive from `v`,
/// if any.
pub open spec fn rx_publish(v: RxView, outcome: Result<(), SocketError>) -> Option<u64> {
    let w = rx_after_recv(v, outcome);
    if v.phase == RxPhase::Receiving && outcome is Ok && w.acc.count % (PUBLISH_THRESHOLD as nat)
        == 0 {
        Some(w.acc.count as u64)
    } else {
        None
    }
}

pub open spec fn rx_wf(v: RxView) -> bool {
    &&& v.acc.published <= v.acc.count
    &&& boundary_below(v.acc.count) <= v.acc.published
    &&& v.phase == RxPhase::Failed <==> v.error is Some
    &&& v.error matches Some(e) ==> !is_transient(e)
}

/// The receive hot loop's state.
pub struct RxEngine {
    phase: RxPhase,
    acc: LocalAccumulator,
    error: Option<SocketError>,
}

impl View for RxEngine {
    type V = RxView;

    closed spec fn view(&self) -> RxView {
        RxView { phase: self.phase, acc: self.acc@, error: self.error }
    }
}

impl RxEngine {
    pub open spec fn wf(&self) -> bool {
        &&& rx_wf(self@)
        &&& self.acc_wf()
    }

    /// The accumulator inside is well formed.
    pub closed spec fn acc_wf(&self) -> bool {
        self.acc.wf()
    }

    pub fn new() -> (r: RxEngine)
        ensures
            r.wf(),
            r@ == (RxView {
                phase: RxPhase::Polling,
                acc: AccumulatorView { count: 0, published: 0 },
                error: None,
            }),
    {
        RxEngine { phase: RxPhase::Polling, acc: LocalAccumulator::new(), error: None }
    }

    pub fn next_action(&self) -> (r: RxAction)
        ensures
            r == rx_action(self@),
    {
        match self.phase {
            RxPhase::Polling => RxAction::PollFlag,
            RxPhase::Receiving => RxAction::Recv,
            RxPhase::Stopped => RxAction::Exit,
            RxPhase::Failed => RxAction::Abort,
        }
    }

    pub fn phase(&self) -> (r: RxPhase)
        ensures
            r == self@.phase,
    {
        self.phase
    }

    /// Packets received so far.
    pub fn received(&self) -> (r: u64)
        requires
            self.wf(),
        ensures
            r == self@.acc.count,
    {
        self.acc.count()
    }

    /// The value last handed out for publishing.
    pub fn published(&self) -> (r: u64)
        requires
            self.wf(),
        ensures
            r == self@.acc.published,
    {
        self.acc.published()
    }

    /// The fatal error that ended the run, if one did.
    pub fn error(&self) -> (r: Option<SocketError>)
        ensures
            r == self@.error,
    {
        self.error
    }

    /// Takes the value read from the termination flag.
    pub fn on_flag(&mut self, stop: bool)
        requires
            old(self).wf(),
        ensures
            final(self).wf(),
            final(self)@ == rx_after_flag(old(self)@, stop),
    {
        if self.phase == RxPhase::Polling {
            self.phase = if stop {
                RxPhase::Stopped
            } else {
                RxPhase::Receiving
            };
        }
    }

    /// Takes the outcome of a receive. Returns the running count to store
    /// into the shared counter when a packet lands on a batch boundary.
    pub fn on_recv(&mut self, outcome: Result<(), SocketError>) -> (r: Option<u64>)
        requires
            old(self).wf(),
            old(self)@.acc.count < u64::MAX,
        ensures
            final(self).wf(),
            final(self)@ == rx_after_recv(old(self)@, outcome),
            r == rx_publish(old(self)@, outcome),
    {
        if self.phase == RxPhase::Receiving {
            match outcome {
                Ok(()) => {
                    self.phase = RxPhase::Polling;
                    self.acc.record()
                },
                Err(e) => {
                    if e.transient() {
                        self.phase = RxPhase::Polling;
                    } else {
                        self.phase = RxPhase::Failed;
                        self.error = Some(e);
                    }
                    None
                },
            }
        } else {
            None
        }
    }
}

/// Whether event `e` answers the action that state `v` asks for.
pub open spec fn rx_answers(v: RxView, e: RxEvent) -> bool {
    match v.phase {
        RxPhase::Polling => e is Flag,
        RxPhase::Receiving => e is Received || e is RecvError,
        RxPhase::Stopped | RxPhase::Failed => true,
    }
}

/// The state after the events `evs`, in order, from `v`.
pub open spec fn rx_run(v: RxView, evs: Seq<RxEvent>) -> RxView
    decreases evs.len(),
{
    if evs.len() == 0 {
        v
    } else {
        rx_run(rx_step(v, evs[0]), evs.drop_first())
    }
}

/// Each event answers the action asked for when it comes, and every read of
/// the flag finds it set.
pub open spec fn rx_answered_with_stop(v: RxView, evs: Seq<RxEvent>) -> bool
    decreases evs.len(),
{
    evs.len() == 0 || {
        &&& rx_answers(v, evs[0])
        &&& evs[0] is Flag ==> evs[0] == RxEvent::Flag { stop: true }
        &&& rx_answered_with_stop(rx_step(v, evs[0]), evs.drop_first())
    }
}

/// Each event answers the action asked for when it comes, every read of the
/// flag finds it clear, and every receive finds nothing to take.
pub open spec fn rx_answered_idle(v: RxView, evs: Seq<RxEvent>) -> bool
    decreases evs.len(),
{
    evs.len() == 0 || {
        &&& rx_answers(v, evs[0])
        &&& evs[0] is Flag ==> evs[0] == RxEvent::Flag { stop: false }
        &&& !(evs[0] is Received)
        &&& evs[0] is RecvError ==> evs[0] == RxEvent::RecvError {
            error: SocketError::NoPacketsAvailable,
        }
        &&& rx_answered_idle(rx_step(v, evs[0]), evs.drop_first())
    }
}

/// Socket calls left before the engine next reads the flag.
pub open spec fn rx_calls_to_poll(v: RxView) -> nat {
    if v.phase == RxPhase::Receiving {
        1
    } else {
        0
    }
}

pub proof fn lemma_rx_step_wf(v: RxView, e: RxEvent)
    requires
        rx_wf(v),
    ensures
        rx_wf(rx_step(v, e)),
{
    if v.phase == RxPhase::Receiving && e == RxEvent::Received {
        let n = v.acc.count + 1;
        assert(v.acc.count % 1024 + 1 == n % 1024 || n % 1024 == 0);
    }
}

/// Once stopped or failed, the engine stays where it is.
pub proof fn lemma_rx_exit_is_final(v: RxView, evs: Seq<RxEvent>)
    requires
        v.phase == RxPhase::Stopped || v.phase == RxPhase::Failed,
    ensures
        rx_run(v, evs) == v,
    decreases evs.len(),
{
    if evs.len() > 0 {
        lemma_rx_exit_is_final(rx_step(v, evs[0]), evs.drop_first());
    }
}

/// Within one call: the receive loop reads the flag after every receive,
/// so once the flag is set it leaves after at most one more call.
pub proof fn lemma_rx_stops_within_one_call(v: RxView, evs: Seq<RxEvent>)
    requires
        rx_wf(v),
        rx_answered_with_stop(v, evs),
        evs.len() > rx_calls_to_poll(v),
    ensures
        rx_calls_to_poll(v) <= 1,
        rx_run(v, evs).phase == RxPhase::Stopped || rx_run(v, evs).phase == RxPhase::Failed,
    decreases evs.len(),
{
    let w = rx_step(v, evs[0]);
    let rest = evs.drop_first();
    if v.phase == RxPhase::Stopped || v.phase == RxPhase::Failed {
        lemma_rx_exit_is_final(v, evs);
    } else if v.phase == RxPhase::Polling {
        lemma_rx_exit_is_final(w, rest);
    } else {
        lemma_rx_step_wf(v, evs[0]);
        lemma_rx_stops_within_one_call(w, rest);
    }
}

/// An idle socket: while every receive finds nothing and the flag stays
/// clear, the loop keeps running and counts nothing.
pub proof fn lemma_rx_idle_runs_on(v: RxView, evs: Seq<RxEvent>)
    requires
        rx_wf(v),
        v.phase == RxPhase::Polling || v.phase == RxPhase::Receiving,
        rx_answered_idle(v, evs),
    ensures
        rx_run(v, evs).acc == v.acc,
        rx_run(v, evs).phase == RxPhase::Polling || rx_run(v, evs).phase == RxPhase::Receiving,
    decreases evs.len(),
{
    if evs.len() > 0 {
        lemma_rx_idle_runs_on(rx_step(v, evs[0]), evs.drop_first());
    }
}

} // verus!
