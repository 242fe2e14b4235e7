//! One iteration of each hot loop: perform the action that the engine asks
//! for on the socket, hand the outcome back, and publish the running count
//! when the engine says so. A driver calls these until the action is `Exit`
//! or `Abort`. The flag is read only when the engine asks for it: once per
//! batch when sending, once per call when receiving.
use crate::rx::{rx_action, rx_answers, rx_step, RxAction, RxEngine, RxEvent};
use crate::shared::{PacketCounter, TerminationFlag};
use crate::socket::PacketSocket;
use crate::tx::{tx_action, tx_answers, tx_step, TxAction, TxEngine, TxEvent};
use vstd::prelude::*;

verus! {

/// Performs the transmit engine's next action. Returns the action and the
/// event it produced, which moved the engine; `Exit` and `Abort` produce
/// none and leave everything as it was.
pub fn step_tx<S: PacketSocket>(
    engine: &mut TxEngine,
    sock: &mut S,
    payload: &[u8],
    flag: &TerminationFlag,
    counter: &PacketCounter,
) -> (r: (TxAction, Option<TxEvent>))
    requires
        old(engine).wf(),
        old(engine)@.acc.count < u64::MAX,
    ensures
        final(engine).wf(),
        r.0 == tx_action(old(engine)@),
        r.1 matches Some(e) ==> tx_answers(old(engine)@, e) && final(engine)@ == tx_step(
            old(engine)@,
            e,
        ),
        r.1 is None <==> (r.0 == TxAction::Exit || r.0 == TxAction::Abort),
        r.1 is None ==> final(engine)@ == old(engine)@,
{
    let action = engine.next_action();
    let event = match action {
        TxAction::FillSlot { slot } => {
            let ok = sock.fill_slot(slot, payload).is_ok();
            engine.on_filled(ok);
            Some(TxEvent::Filled { ok })
        },
        TxAction::PollFlag => {
            let stop = flag.is_stopped();
            engine.on_flag(stop);
            Some(TxEvent::Flag { stop })
        },
        TxAction::Send => {
            let accepted = sock.send(payload).is_ok();
            if let Some(total) = engine.on_send(accepted) {
                counter.publish(total);
            }
            Some(TxEvent::Sent { accepted })
        },
        TxAction::SendSlot { slot } => {
            let accepted = sock.send_slot(slot, payload.len()).is_ok();
            if let Some(total) = engine.on_send(accepted) {
                counter.publish(total);
            }
            Some(TxEvent::Sent { accepted })
        },
        TxAction::Flush => {
            let ok = sock.flush().is_ok();
            engine.on_flush(ok);
            Some(TxEvent::Flushed { ok })
        },
        TxAction::Exit => None,
        TxAction::Abort => None,
    };
    (action, event)
}

/// Performs the receive engine's next action, as [`step_tx`] does.
pub fn step_rx<S: PacketSocket>(
    engine: &mut RxEngine,
    sock: &mut S,
    flag: &TerminationFlag,
    counter: &PacketCounter,
) -> (r: (RxAction, Option<RxEvent>))
    requires
        old(engine).wf(),
        old(engine)@.acc.count < u64::MAX,
    ensures
        final(engine).wf(),
        r.0 == rx_action(old(engine)@),
        r.1 matches Some(e) ==> rx_answers(old(engine)@, e) && final(engine)@ == rx_step(
            old(engine)@,
            e,
        ),
        r.1 is None <==> (r.0 == RxAction::Exit || r.0 == RxAction::Abort),
        r.1 is None ==> final(engine)@ == old(engine)@,
{
    let action = engine.next_action();
    let event = match action {
        RxAction::PollFlag => {
            let stop = flag.is_stopped();
            engine.on_flag(stop);
            Some(RxEvent::Flag { stop })
        },
        RxAction::Recv => {
            let outcome = sock.recv();
            if let Some(total) = engine.on_recv(outcome) {
                counter.publish(total);
            }
            match outcome {
                Ok(()) => Some(RxEvent::Received),
                Err(error) => Some(RxEvent::RecvError { error }),
            }
        },
        RxAction::Exit => None,
        RxAction::Abort => None,
    };
    (action, event)
}

} // verus!
