use netbench::config::{BenchmarkConfig, ConfigError, Direction, TxMode, PACKET_HEADER_SIZE};
use netbench::experiment::{
    classify_file_name, get_experiment_name, Device, Experiment, ExperimentName, Language,
    NameError,
};
use netbench::meter::{delay_until, secs_to_millis, Meter, Watchdog};
use netbench::mock::MockSocket;
use netbench::socket::SocketError;

#[test]
fn send_config_needs_room_for_payload() {
    let r = BenchmarkConfig::for_send("eth0".to_string(), 1, 1024, PACKET_HEADER_SIZE, TxMode::Copy);
    assert_eq!(r.err(), Some(ConfigError::PacketTooSmall));
    let c = BenchmarkConfig::for_send("eth0".to_string(), 1, 1024, 31, TxMode::Copy).unwrap();
    assert_eq!(c.payload_len(), 1);
    assert_eq!(c.make_payload(), vec![0xff]);
}

#[test]
fn send_config_defaults() {
    let c = BenchmarkConfig::for_send("eth0".to_string(), 32, 2048, 64, TxMode::Copy).unwrap();
    assert_eq!(c.interface(), "eth0");
    assert_eq!(c.direction(), Direction::Send);
    assert_eq!(c.mode(), TxMode::Copy);
    assert_eq!(c.batch_size(), 32);
    assert_eq!(c.ring_slots(), 2048);
    assert_eq!(c.packet_size(), 64);
    assert_eq!(c.duration_secs(), 601);
    assert_eq!(c.interval_secs(), 10);
    let p = c.make_payload();
    assert_eq!(p.len(), 34);
    assert!(p.iter().all(|b| *b == 0xff));
}

#[test]
fn zero_copy_needs_a_ring() {
    let r = BenchmarkConfig::for_send("eth0".to_string(), 1, 0, 64, TxMode::ZeroCopy);
    assert_eq!(r.err(), Some(ConfigError::EmptyRing));
    let r = BenchmarkConfig::for_send("eth0".to_string(), 1, 0, 64, TxMode::Copy);
    assert!(r.is_ok());
    let r = BenchmarkConfig::for_send("eth0".to_string(), 1, 0, 10, TxMode::ZeroCopy);
    assert_eq!(r.err(), Some(ConfigError::PacketTooSmall));
}

#[test]
fn timing_refuses_zero_interval() {
    let c = BenchmarkConfig::for_recv("eth1".to_string(), 1024, 0);
    assert_eq!(c.direction(), Direction::Recv);
    assert_eq!(c.packet_size(), 0);
    let r = BenchmarkConfig::for_recv("eth1".to_string(), 1024, 0).with_timing(5, 0);
    assert_eq!(r.err(), Some(ConfigError::ZeroInterval));
    let c = c.with_timing(5, 1).unwrap();
    assert_eq!(c.duration_secs(), 5);
    assert_eq!(c.interval_secs(), 1);
    assert_eq!(c.ring_slots(), 1024);
    assert_eq!(c.interface(), "eth1");
}

#[test]
fn meter_emits_deltas_at_absolute_deadlines() {
    let mut m = Meter::new(500, 10_000);
    assert_eq!(m.next_wake(), 10_500);
    assert_eq!(m.delay(500), 10_000);
    assert_eq!(m.delay(3_000), 7_500);
    assert_eq!(m.on_wake(1024), 1024);
    // A late wake does not push later deadlines back.
    assert_eq!(m.next_wake(), 20_500);
    assert_eq!(m.delay(21_000), 0);
    assert_eq!(m.on_wake(1024), 0);
    assert_eq!(m.on_wake(5120), 4096);
    assert_eq!(m.next_wake(), 40_500);
    assert_eq!(m.last_total(), 5120);
    assert_eq!(m.samples(), 3);
}

#[test]
fn meter_samples_sum_to_last_total() {
    let totals = [0u64, 1024, 3072, 3072, 7168, 9216];
    let mut m = Meter::new(0, 1000);
    let mut sum = 0;
    for t in totals {
        sum += m.on_wake(t);
    }
    assert_eq!(sum, 9216);
    assert_eq!(m.samples(), 6);
    assert_eq!(m.next_wake(), 7000);
}

#[test]
fn meter_deadline_saturates() {
    let mut m = Meter::new(u64::MAX - 5, 10);
    assert_eq!(m.next_wake(), u64::MAX);
    m.on_wake(1);
    assert_eq!(m.next_wake(), u64::MAX);
}

#[test]
fn watchdog_deadline_is_fixed_once() {
    let w = Watchdog::arm(1_000, secs_to_millis(601));
    assert_eq!(w.deadline(), 602_000);
    assert_eq!(w.remaining(1_000), 601_000);
    assert_eq!(w.remaining(600_000), 2_000);
    assert!(!w.expired(601_999));
    assert!(w.expired(602_000));
    assert_eq!(w.remaining(700_000), 0);
    assert_eq!(Watchdog::arm(u64::MAX - 1, 5).deadline(), u64::MAX);
}

#[test]
fn time_helpers() {
    assert_eq!(secs_to_millis(10), 10_000);
    assert_eq!(secs_to_millis(u64::MAX / 1000 + 1), u64::MAX);
    assert_eq!(delay_until(5, 3), 0);
    assert_eq!(delay_until(3, 5), 2);
}

#[test]
fn socket_error_classes() {
    assert!(SocketError::InUse.transient());
    assert!(SocketError::NoPacketsAvailable.transient());
    assert!(SocketError::PacketFiltered.transient());
    assert!(!SocketError::Fatal.transient());
}

#[test]
fn mock_ring_refuses_when_full() {
    let mut s = MockSocket::new(2, 0, None);
    assert!(s.send(&[1, 2, 3]).is_ok());
    assert!(s.send(&[1, 2]).is_ok());
    assert_eq!(s.send(&[1]), Err(SocketError::InUse));
    assert!(s.flush().is_ok());
    assert_eq!(s.committed(), &vec![3, 2]);
    assert_eq!(s.pending_len(), 0);
}

#[test]
fn mock_slot_errors() {
    let mut s = MockSocket::new(2, 1, None);
    assert_eq!(s.fill_slot(2, &[0; 4]), Err(SocketError::Fatal));
    assert!(s.fill_slot(1, &[0; 4]).is_ok());
    assert_eq!(s.send_slot(0, 1), Err(SocketError::Fatal));
    assert_eq!(s.send_slot(1, 5), Err(SocketError::Fatal));
    assert!(s.send_slot(1, 4).is_ok());
    assert_eq!(s.flush(), Err(SocketError::Fatal));
    assert!(s.committed().is_empty());
    assert!(s.flush().is_ok());
}

#[test]
fn experiment_names() {
    assert_eq!(
        get_experiment_name("rust_send_ens1f0.txt").unwrap(),
        "Trasmission (physical 100G) - Rust"
    );
    assert_eq!(
        get_experiment_name("cpp_recv_enp3s0.txt").unwrap(),
        "Reception (physical 10G) - C++"
    );
    assert_eq!(get_experiment_name("send_vale0_cpp").unwrap(), "Trasmission (VALE) - C++");
    assert_eq!(
        classify_file_name("recv_vale_rust"),
        Ok(ExperimentName {
            experiment: Experiment::Reception,
            device: Device::Vale,
            language: Language::Rust
        })
    );
}

#[test]
fn experiment_name_errors() {
    assert_eq!(get_experiment_name("send_eth0_rust"), Err(NameError::UnknownDevice));
    assert_eq!(get_experiment_name("ens_rust"), Err(NameError::UnknownExperiment));
    assert_eq!(get_experiment_name("enp_recv"), Err(NameError::UnknownLanguage));
    // The device is told first: a name with nothing known fails on it.
    assert_eq!(get_experiment_name("nothing"), Err(NameError::UnknownDevice));
}
