use netbench::accumulator::LocalAccumulator;
use netbench::config::{BenchmarkConfig, TxMode};
use netbench::hotloop::{step_rx, step_tx};
use netbench::meter::Meter;
use netbench::mock::MockSocket;
use netbench::rx::{RxAction, RxEngine, RxPhase};
use netbench::shared::{PacketCounter, TerminationFlag};
use netbench::socket::SocketError;
use netbench::tx::{TxAction, TxEngine, TxEvent, TxPhase};

fn tx(engine: &mut TxEngine, sock: &mut MockSocket, payload: &[u8], flag: &TerminationFlag, counter: &PacketCounter) -> TxAction {
    step_tx(engine, sock, payload, flag, counter).0
}

fn send_config(batch: u32, slots: u32, mode: TxMode) -> BenchmarkConfig {
    BenchmarkConfig::for_send("veth0".to_string(), batch, slots, 64, mode).unwrap()
}

#[test]
fn accumulator_publishes_on_boundaries_only() {
    let mut acc = LocalAccumulator::new();
    let mut published = Vec::new();
    for _ in 0..2500 {
        if let Some(v) = acc.record() {
            published.push(v);
        }
    }
    assert_eq!(published, vec![1024, 2048]);
    assert_eq!(acc.count(), 2500);
    assert_eq!(acc.published(), 2048);
    assert_eq!(acc.force_publish(), 2500);
    assert_eq!(acc.published(), 2500);
}

#[test]
fn forced_publish_after_n_sends_equals_n() {
    let config = send_config(7, 1024, TxMode::Copy);
    let mut engine = TxEngine::new(&config);
    let mut sock = MockSocket::new(1024, 0, None);
    let counter = PacketCounter::new();
    let flag = TerminationFlag::new();
    let payload = config.make_payload();
    let mut polls = 0;
    loop {
        if polls >= 300 {
            flag.request_stop();
        }
        let a = tx(&mut engine, &mut sock, &payload, &flag, &counter);
        if a == TxAction::PollFlag {
            polls += 1;
        }
        if a == TxAction::Exit {
            break;
        }
    }
    let n = sock.committed().len() as u64;
    assert_eq!(n, 300 * 7);
    assert_eq!(engine.sent(), n);
    assert_eq!(counter.read(), n - n % 1024);
    assert_eq!(engine.published(), 2048);
}

#[test]
fn copy_batch_is_flushed_then_flag_polled() {
    let config = send_config(4, 16, TxMode::Copy);
    let mut engine = TxEngine::new(&config);
    let mut sock = MockSocket::new(16, 0, None);
    let counter = PacketCounter::new();
    let flag = TerminationFlag::new();
    let payload = config.make_payload();
    assert_eq!(engine.next_action(), TxAction::PollFlag);
    tx(&mut engine, &mut sock, &payload, &flag, &counter);
    for _ in 0..4 {
        assert_eq!(tx(&mut engine, &mut sock, &payload, &flag, &counter), TxAction::Send);
    }
    assert_eq!(sock.pending_len(), 4);
    assert_eq!(tx(&mut engine, &mut sock, &payload, &flag, &counter), TxAction::Flush);
    assert_eq!(sock.committed(), &vec![34, 34, 34, 34]);
    assert_eq!(engine.phase(), TxPhase::Polling);
}

#[test]
fn refused_send_ends_batch_early() {
    let config = send_config(5, 2, TxMode::Copy);
    let mut engine = TxEngine::new(&config);
    let mut sock = MockSocket::new(2, 0, None);
    let counter = PacketCounter::new();
    let flag = TerminationFlag::new();
    let payload = config.make_payload();
    tx(&mut engine, &mut sock, &payload, &flag, &counter);
    assert_eq!(tx(&mut engine, &mut sock, &payload, &flag, &counter), TxAction::Send);
    assert_eq!(tx(&mut engine, &mut sock, &payload, &flag, &counter), TxAction::Send);
    // The ring is full: the third send is refused and the batch ends.
    assert_eq!(tx(&mut engine, &mut sock, &payload, &flag, &counter), TxAction::Send);
    assert_eq!(engine.phase(), TxPhase::Flushing);
    assert_eq!(engine.sent(), 2);
    assert_eq!(tx(&mut engine, &mut sock, &payload, &flag, &counter), TxAction::Flush);
    assert_eq!(sock.committed().len(), 2);
}

#[test]
fn tx_stops_within_one_batch_after_flag() {
    let config = send_config(8, 64, TxMode::Copy);
    let mut engine = TxEngine::new(&config);
    let mut sock = MockSocket::new(64, 0, None);
    let counter = PacketCounter::new();
    let flag = TerminationFlag::new();
    let payload = config.make_payload();
    tx(&mut engine, &mut sock, &payload, &flag, &counter);
    tx(&mut engine, &mut sock, &payload, &flag, &counter);
    // The flag is set mid-batch: the batch runs out, is flushed, and the next
    // read of the flag ends the loop.
    flag.request_stop();
    let mut calls = 0;
    while engine.next_action() != TxAction::PollFlag {
        tx(&mut engine, &mut sock, &payload, &flag, &counter);
        calls += 1;
    }
    assert!(calls <= 8 + 1);
    assert_eq!(calls, 7 + 1);
    tx(&mut engine, &mut sock, &payload, &flag, &counter);
    assert_eq!(engine.next_action(), TxAction::Exit);
    assert_eq!(engine.phase(), TxPhase::Stopped);
    assert_eq!(sock.committed().len(), 8);
}

#[test]
fn zero_copy_commits_k_frames_of_payload_length() {
    let k: u32 = 8;
    let config = BenchmarkConfig::for_send("veth0".to_string(), k, k, 100, TxMode::ZeroCopy).unwrap();
    let mut engine = TxEngine::new(&config);
    let mut sock = MockSocket::new(k as usize, 0, None);
    let counter = PacketCounter::new();
    let flag = TerminationFlag::new();
    let payload = config.make_payload();
    assert_eq!(payload.len(), 70);
    for slot in 0..k {
        assert_eq!(engine.next_action(), TxAction::FillSlot { slot });
        tx(&mut engine, &mut sock, &payload, &flag, &counter);
    }
    assert_eq!(engine.next_action(), TxAction::PollFlag);
    tx(&mut engine, &mut sock, &payload, &flag, &counter);
    for slot in 0..k {
        assert_eq!(engine.next_action(), TxAction::SendSlot { slot });
        tx(&mut engine, &mut sock, &payload, &flag, &counter);
    }
    assert_eq!(tx(&mut engine, &mut sock, &payload, &flag, &counter), TxAction::Flush);
    assert_eq!(sock.committed(), &vec![70usize; 8]);
    // The cursor wraps round the ring.
    tx(&mut engine, &mut sock, &payload, &flag, &counter);
    assert_eq!(engine.next_action(), TxAction::SendSlot { slot: 0 });
}

#[test]
fn meter_lines_sum_to_accepted_sends_within_one_batch() {
    // batch size 1, one-second intervals, five seconds against a socket
    // that accepts every send; 3000 sends happen in each second.
    let config = send_config(1, 4096, TxMode::Copy).with_timing(5, 1).unwrap();
    let mut engine = TxEngine::new(&config);
    let mut sock = MockSocket::new(4096, 0, None);
    let counter = PacketCounter::new();
    let flag = TerminationFlag::new();
    let payload = config.make_payload();
    let interval = netbench::meter::secs_to_millis(config.interval_secs());
    let mut meter = Meter::new(0, interval);
    let mut lines = Vec::new();
    let mut now: u64 = 0;
    while now < 5000 {
        let mut sends = 0;
        while sends < 3000 {
            if tx(&mut engine, &mut sock, &payload, &flag, &counter) == TxAction::Send {
                sends += 1;
            }
        }
        now += meter.delay(now);
        let total = counter.read();
        lines.push(meter.on_wake(total));
    }
    while engine.next_action() != TxAction::PollFlag {
        tx(&mut engine, &mut sock, &payload, &flag, &counter);
    }
    assert_eq!(lines.len(), 5);
    let accepted = sock.committed().len() as u64;
    assert_eq!(accepted, 15000);
    let sum: u64 = lines.iter().sum();
    assert!(accepted - sum <= 1024);
    assert_eq!(sum, 14336);
    assert_eq!(lines, vec![2048, 3072, 3072, 3072, 3072]);
}

#[test]
fn flush_failing_on_third_call_aborts_without_retry() {
    let config = send_config(2, 16, TxMode::Copy);
    let mut engine = TxEngine::new(&config);
    let mut sock = MockSocket::new(16, 3, None);
    let counter = PacketCounter::new();
    let flag = TerminationFlag::new();
    let payload = config.make_payload();
    let mut steps = 0;
    while engine.next_action() != TxAction::Abort {
        tx(&mut engine, &mut sock, &payload, &flag, &counter);
        steps += 1;
        assert!(steps < 100);
    }
    assert_eq!(sock.flushes(), 3);
    assert_eq!(engine.phase(), TxPhase::Failed);
    assert_eq!(sock.committed().len(), 4);
    // Nothing more is asked of the socket.
    for _ in 0..10 {
        assert_eq!(tx(&mut engine, &mut sock, &payload, &flag, &counter), TxAction::Abort);
    }
    assert_eq!(sock.flushes(), 3);
}

fn rx(engine: &mut RxEngine, sock: &mut MockSocket, flag: &TerminationFlag, counter: &PacketCounter) -> RxAction {
    step_rx(engine, sock, flag, counter).0
}

#[test]
fn idle_receive_runs_until_flag() {
    let mut engine = RxEngine::new();
    let mut sock = MockSocket::new(0, 0, Some(SocketError::NoPacketsAvailable));
    let counter = PacketCounter::new();
    let flag = TerminationFlag::new();
    for _ in 0..20000 {
        let a = rx(&mut engine, &mut sock, &flag, &counter);
        assert!(a == RxAction::PollFlag || a == RxAction::Recv);
    }
    assert_eq!(sock.recvs(), 10000);
    assert_eq!(engine.received(), 0);
    assert_eq!(counter.read(), 0);
    flag.request_stop();
    rx(&mut engine, &mut sock, &flag, &counter);
    assert_eq!(engine.next_action(), RxAction::Exit);
    assert_eq!(engine.phase(), RxPhase::Stopped);
}

#[test]
fn transient_receive_errors_are_ignored() {
    for e in [SocketError::InUse, SocketError::PacketFiltered, SocketError::NoPacketsAvailable] {
        let mut engine = RxEngine::new();
        engine.on_flag(false);
        assert_eq!(engine.on_recv(Err(e)), None);
        assert_eq!(engine.phase(), RxPhase::Polling);
        assert_eq!(engine.error(), None);
    }
}

#[test]
fn fatal_receive_error_aborts() {
    let mut engine = RxEngine::new();
    let mut sock = MockSocket::new(0, 0, Some(SocketError::Fatal));
    let counter = PacketCounter::new();
    let flag = TerminationFlag::new();
    rx(&mut engine, &mut sock, &flag, &counter);
    rx(&mut engine, &mut sock, &flag, &counter);
    assert_eq!(engine.next_action(), RxAction::Abort);
    assert_eq!(engine.error(), Some(SocketError::Fatal));
    rx(&mut engine, &mut sock, &flag, &counter);
    assert_eq!(sock.recvs(), 1);
}

#[test]
fn receive_publishes_every_1024_packets() {
    let mut engine = RxEngine::new();
    let mut sock = MockSocket::new(0, 0, None);
    let counter = PacketCounter::new();
    let flag = TerminationFlag::new();
    for _ in 0..(2 * 3000) {
        rx(&mut engine, &mut sock, &flag, &counter);
    }
    assert_eq!(engine.received(), 3000);
    assert_eq!(counter.read(), 2048);
    assert_eq!(engine.published(), 2048);
}

#[test]
fn rx_stops_within_one_call_after_flag() {
    let mut engine = RxEngine::new();
    let mut sock = MockSocket::new(0, 0, None);
    let counter = PacketCounter::new();
    let flag = TerminationFlag::new();
    rx(&mut engine, &mut sock, &flag, &counter);
    assert_eq!(engine.next_action(), RxAction::Recv);
    flag.request_stop();
    rx(&mut engine, &mut sock, &flag, &counter);
    rx(&mut engine, &mut sock, &flag, &counter);
    assert_eq!(engine.next_action(), RxAction::Exit);
    assert_eq!(engine.received(), 1);
}

#[test]
fn termination_flag_set_twice_stays_set() {
    let flag = TerminationFlag::new();
    let watchdog = flag.handle();
    let interrupt = flag.handle();
    assert!(!flag.is_stopped());
    watchdog.request_stop();
    interrupt.request_stop();
    assert!(flag.is_stopped());
    interrupt.request_stop();
    assert!(flag.is_stopped());
    assert!(watchdog.is_stopped());
}

#[test]
fn counter_handles_share_one_value() {
    let counter = PacketCounter::new();
    let reader = counter.handle();
    assert_eq!(reader.read(), 0);
    counter.publish(4096);
    assert_eq!(reader.read(), 4096);
}

#[test]
fn failed_ring_fill_aborts_before_sending() {
    let config = BenchmarkConfig::for_send("veth0".to_string(), 4, 4, 64, TxMode::ZeroCopy).unwrap();
    let mut engine = TxEngine::new(&config);
    // The socket's ring is smaller than the configured one.
    let mut sock = MockSocket::new(2, 0, None);
    let counter = PacketCounter::new();
    let flag = TerminationFlag::new();
    let payload = config.make_payload();
    let (a, e) = step_tx(&mut engine, &mut sock, &payload, &flag, &counter);
    assert_eq!(a, TxAction::FillSlot { slot: 0 });
    assert_eq!(e, Some(TxEvent::Filled { ok: true }));
    tx(&mut engine, &mut sock, &payload, &flag, &counter);
    let (a, e) = step_tx(&mut engine, &mut sock, &payload, &flag, &counter);
    assert_eq!(a, TxAction::FillSlot { slot: 2 });
    assert_eq!(e, Some(TxEvent::Filled { ok: false }));
    assert_eq!(engine.phase(), TxPhase::Failed);
    assert_eq!(step_tx(&mut engine, &mut sock, &payload, &flag, &counter), (TxAction::Abort, None));
    assert_eq!(sock.pending_len(), 0);
    assert!(sock.committed().is_empty());
}
