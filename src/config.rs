//! The immutable configuration of one benchmark run.
use vstd::prelude::*;

verus! {

/// Bytes of every frame taken by headers; the payload is the rest.
pub const PACKET_HEADER_SIZE: usize = 30;

/// Default number of packets in a batch.
pub const DEFAULT_BATCH_SIZE: u32 = 1;

/// Default number of slots in the socket's rings.
pub const DEFAULT_RING_SLOTS: u32 = 1024;

/// Default frame size of a transmit run.
pub const DEFAULT_PACKET_SIZE: usize = 64;

/// Default hard limit on a run, in seconds.
pub const DEFAULT_DURATION_SECS: u64 = 601;

/// Default metering interval, in seconds.
pub const DEFAULT_METER_INTERVAL_SECS: u64 = 10;

/// Byte that fills every payload.
pub const PAYLOAD_BYTE: u8 = 0xff;

/// How the transmit engine hands a payload to the socket.
#[derive(Clone, Copy, Debug, PartialEq, Eq, Structural)]
pub enum TxMode {
    /// The socket copies the payload on each send.
    Copy,
    /// Ring slots are filled once; each send names a slot.
    ZeroCopy,
}

/// Which way packets flow.
#[derive(Clone, Copy, Debug, PartialEq, Eq, Structural)]
pub enum Direction {
    Send,
    Recv,
}

/// Why a configuration was refused.
#[derive(Clone, Copy, Debug, PartialEq, Eq, Structural)]
pub enum ConfigError {
    /// The frame size leaves no room for a payload after the headers.
    PacketTooSmall,
    /// Zero-copy transmission needs at least one ring slot.
    EmptyRing,
    /// The metering interval is zero.
    ZeroInterval,
}

/// Mathematical view of a [`BenchmarkConfig`].
pub struct ConfigView {
    pub interface: Seq<char>,
    pub direction: Direction,
    pub mode: TxMode,
    pub batch_size: nat,
    pub ring_slots: nat,
    pub packet_size: nat,
    pub duration_secs: nat,
    pub interval_secs: nat,
}

/// Settings resolved once before the hot loop starts, and only read after.
pub struct BenchmarkConfig {
    interface: String,
    direction: Direction,
    mode: TxMode,
    batch_size: u32,
    ring_slots: u32,
    packet_size: usize,
    duration_secs: u64,
    interval_secs: u64,
}

impl View for BenchmarkConfig {
    type V = ConfigView;

    closed spec fn view(&self) -> ConfigView {
        ConfigView {
            interface: self.interface@,
            direction: self.direction,
            mode: self.mode,
            batch_size: self.batch_size as nat,
            ring_slots: self.ring_slots as nat,
            packet_size: self.packet_size as nat,
            duration_secs: self.duration_secs as nat,
            interval_secs: self.interval_secs as nat,
        }
    }
}

/// The refusal, if any, of a transmit configuration.
pub open spec fn send_config_error(packet_size: nat, ring_slots: nat, mode: TxMode) -> Option<
    ConfigError,
> {
    if packet_size <= PACKET_HEADER_SIZE {
        Some(ConfigError::PacketTooSmall)
    } else if mode == TxMode::ZeroCopy && ring_slots == 0 {
        Some(ConfigError::EmptyRing)
    } else {
        None
    }
}

impl BenchmarkConfig {
    /// A valid configuration: transmit frames carry a payload, zero-copy
    /// has a ring to fill, and the meter has a positive interval.
    pub open spec fn wf(&self) -> bool {
        &&& self@.interval_secs > 0
        &&& self@.direction == Direction::Send ==> send_config_error(
            self@.packet_size,
            self@.ring_slots,
            self@.mode,
        ) is None
        &&& self@.direction == Direction::Recv ==> self@.mode == TxMode::Copy
    }

    /// A transmit configuration with the default timing. Refused when the
    /// frame has no room for a payload, or zero-copy is asked for without a
    /// ring slot.
    pub fn for_send(
        interface: String,
        batch_size: u32,
        ring_slots: u32,
        packet_size: usize,
        mode: TxMode,
    ) -> (r: Result<BenchmarkConfig, ConfigError>)
        ensures
            send_config_error(packet_size as nat, ring_slots as nat, mode) matches Some(e) ==> r
                == Err::<BenchmarkConfig, ConfigError>(e),
            send_config_error(packet_size as nat, ring_slots as nat, mode) is None ==> (r matches Ok(c) && c.wf() && c@ == (ConfigView {
                interface: interface@,
                direction: Direction::Send,
                mode,
                batch_size: batch_size as nat,
                ring_slots: ring_slots as nat,
                packet_size: packet_size as nat,
                duration_secs: DEFAULT_DURATION_SECS as nat,
                interval_secs: DEFAULT_METER_INTERVAL_SECS as nat,
            })),
    {
        if packet_size <= PACKET_HEADER_SIZE {
            Err(ConfigError::PacketTooSmall)
        } else if mode == TxMode::ZeroCopy && ring_slots == 0 {
            Err(ConfigError::EmptyRing)
        } else {
            Ok(
                BenchmarkConfig {
                    interface,
                    direction: Direction::Send,
                    mode,
                    batch_size,
                    ring_slots,
                    packet_size,
                    duration_secs: DEFAULT_DURATION_SECS,
                    interval_secs: DEFAULT_METER_INTERVAL_SECS,
                },
            )
        }
    }

    /// A receive configuration with the default timing; every value is
    /// accepted.
    pub fn for_recv(interface: String, ring_slots: u32, packet_size: u32) -> (r: BenchmarkConfig)
        ensures
            r.wf(),
            r@ == (ConfigView {
                interface: interface@,
                direction: Direction::Recv,
                mode: TxMode::Copy,
                batch_size: 1,
                ring_slots: ring_slots as nat,
                packet_size: packet_size as nat,
                duration_secs: DEFAULT_DURATION_SECS as nat,
                interval_secs: DEFAULT_METER_INTERVAL_SECS as nat,
            }),
    {
        BenchmarkConfig {
            interface,
            direction: Direction::Recv,
            mode: TxMode::Copy,
            batch_size: 1,
            ring_slots,
            packet_size: packet_size as usize,
            duration_secs: DEFAULT_DURATION_SECS,
            interval_secs: DEFAULT_METER_INTERVAL_SECS,
        }
    }

    /// The same configuration with another run length and metering
    /// interval. Refused when the interval is zero.
    pub fn with_timing(self, duration_secs: u64, interval_secs: u64) -> (r: Result<
        BenchmarkConfig,
        ConfigError,
    >)
        requires
            self.wf(),
        ensures
            interval_secs == 0 ==> r == Err::<BenchmarkConfig, ConfigError>(
                ConfigError::ZeroInterval,
            ),
            interval_secs > 0 ==> (r matches Ok(c) && c.wf() && c@ == (ConfigView {
                duration_secs: duration_secs as nat,
                interval_secs: interval_secs as nat,
                ..self@
            })),
    {
        if interval_secs == 0 {
            Err(ConfigError::ZeroInterval)
        } else {
            Ok(BenchmarkConfig { duration_secs, interval_secs, ..self })
        }
    }

    pub fn interface(&self) -> (r: &str)
        ensures
            r@ == self@.interface,
    {
        self.interface.as_str()
    }

    pub fn direction(&self) -> (r: Direction)
        ensures
            r == self@.direction,
    {
        self.direction
    }

    pub fn mode(&self) -> (r: TxMode)
        ensures
            r == self@.mode,
    {
        self.mode
    }

    pub fn batch_size(&self) -> (r: u32)
        ensures
            r == self@.batch_size,
    {
        self.batch_size
    }

    pub fn ring_slots(&self) -> (r: u32)
        ensures
            r == self@.ring_slots,
    {
        self.ring_slots
    }

    pub fn packet_size(&self) -> (r: usize)
        ensures
            r == self@.packet_size,
    {
        self.packet_size
    }

    pub fn duration_secs(&self) -> (r: u64)
        ensures
            r == self@.duration_secs,
    {
        self.duration_secs
    }

    pub fn interval_secs(&self) -> (r: u64)
        ensures
            r == self@.interval_secs,
    {
        self.interval_secs
    }

    /// Bytes of payload in each transmitted frame: the frame size less the
    /// headers.
    pub fn payload_len(&self) -> (r: usize)
        requires
            self.wf(),
            self@.direction == Direction::Send,
        ensures
            r == self@.packet_size - PACKET_HEADER_SIZE,
            r > 0,
    {
        self.packet_size - PACKET_HEADER_SIZE
    }

    /// The payload sent in every frame: `payload_len` bytes of `0xff`.
    pub fn make_payload(&self) -> (r: Vec<u8>)
        requires
            self.wf(),
            self@.direction == Direction::Send,
        ensures
            r@ == Seq::new((self@.packet_size - PACKET_HEADER_SIZE) as nat, |_i: int| PAYLOAD_BYTE),
    {
        let n = self.payload_len();
        let mut v: Vec<u8> = Vec::with_capacity(n);
        let mut i: usize = 0;
        while i < n
            invariant
                i <= n,
                v@ == Seq::new(i as nat, |_j: int| PAYLOAD_BYTE),
            decreases n - i,
        {
            v.push(PAYLOAD_BYTE);
            i = i + 1;
            assert(v@ =~= Seq::new(i as nat, |_j: int| PAYLOAD_BYTE));
        }
        v
    }
}

} // verus!
