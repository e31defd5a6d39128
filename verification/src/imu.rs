//! The decisions of the IMU firmware task: which writes it answers, how its
//! state moves through initialization and calibration, what it does with the
//! DMP FIFO, and how a DMP packet is cut into readings.
//!
//! The task itself (talking to the sensor, waiting, notifying) runs outside;
//! it hands each event to `ImuTask` and performs the action it gets back.
use vstd::prelude::*;
use crate::codec::{FromBytesLe, ImuData, ToBytesLe, Tri};
use crate::imu_conf::{command_of_code, ImuCommand, ImuStatus};
use crate::le::i16_from_be;
use crate::status::{lemma_status_roundtrip, Status};

verus! {

/// Accelerometer offsets the sensor starts with, before any calibration.
pub const DEFAULT_ACCEL_CALIBRATION: [i16; 3] = [-3399i16, -3054i16, 947i16];

/// Gyroscope offsets the sensor starts with, before any calibration.
pub const DEFAULT_GYRO_CALIBRATION: [i16; 3] = [123i16, -46i16, -24i16];

/// Bytes in one DMP FIFO packet: quaternion (16), gyroscope (6), accelerometer (6).
pub const DMP_PACKET_SIZE: usize = 28;

/// A FIFO byte count at or above this means the FIFO overflowed.
pub const FIFO_OVERFLOW: usize = 1024;

/// Once this many samples have gone unlogged, the next sample is logged
/// (one log line every `LOG_INTERVAL + 1` samples).
pub const LOG_INTERVAL: u32 = 1000;

/// What a write to the motion service leads to.
#[derive(Clone, Copy, Debug, PartialEq, Eq, Structural)]
pub struct WriteOutcome {
    /// The write was addressed to the IMU configuration characteristic.
    pub handled: bool,
    /// The command to queue for the IMU task, if any.
    pub queued: Option<ImuCommand>,
}

/// Answers a GATT write with attribute `handle` and payload `data`, where
/// `conf_handle` is the handle of the IMU configuration characteristic. A
/// write to that characteristic is handled; its first byte is a command code,
/// and a calibration command is queued for the IMU task.
pub fn handle_write_events(handle: u16, data: &[u8], conf_handle: u16) -> (out: WriteOutcome)
    requires
        handle == conf_handle ==> data@.len() >= 1,
    ensures
        out.handled == (handle == conf_handle),
        out.queued == (if handle == conf_handle && command_of_code(data@[0])
            == ImuCommand::Calibrate {
            Some(ImuCommand::Calibrate)
        } else {
            None
        }),
{
    if handle == conf_handle {
        let command = ImuCommand::from_primitive(data[0]);
        let queued = match command {
            ImuCommand::Calibrate => Some(ImuCommand::Calibrate),
            _ => None,
        };
        WriteOutcome { handled: true, queued }
    } else {
        WriteOutcome { handled: false, queued: None }
    }
}

/// What the task does with the DMP FIFO after reading its byte count.
#[derive(Clone, Copy, Debug, PartialEq, Eq, Structural)]
pub enum FifoAction {
    /// The FIFO overflowed: reset it.
    Reset,
    /// At least one whole packet is waiting: read packets.
    Read,
    /// Less than a packet is waiting: wait for the next poll.
    Wait,
}

/// The FIFO action for a given byte count.
pub open spec fn fifo_action_spec(fifo_count: usize) -> FifoAction {
    if fifo_count >= FIFO_OVERFLOW {
        FifoAction::Reset
    } else if fifo_count >= DMP_PACKET_SIZE {
        FifoAction::Read
    } else {
        FifoAction::Wait
    }
}

/// Decides what to do with the FIFO holding `fifo_count` bytes.
pub fn fifo_action(fifo_count: usize) -> (a: FifoAction)
    ensures
        a == fifo_action_spec(fifo_count),
        fifo_count < DMP_PACKET_SIZE ==> a == FifoAction::Wait,
        DMP_PACKET_SIZE <= fifo_count < FIFO_OVERFLOW ==> a == FifoAction::Read,
        FIFO_OVERFLOW <= fifo_count ==> a == FifoAction::Reset,
{
    if fifo_count >= FIFO_OVERFLOW {
        FifoAction::Reset
    } else if fifo_count >= DMP_PACKET_SIZE {
        FifoAction::Read
    } else {
        FifoAction::Wait
    }
}

/// The FIFO is read whenever at least one whole 28-byte packet waits and it
/// has not overflowed at 1024 bytes; below one packet the task waits, and from
/// 1024 bytes on it resets the FIFO.
pub proof fn lemma_fifo_thresholds(fifo_count: usize)
    ensures
        DMP_PACKET_SIZE == 28,
        FIFO_OVERFLOW == 1024,
        fifo_count < 28 ==> fifo_action_spec(fifo_count) == FifoAction::Wait,
        28 <= fifo_count < 1024 ==> fifo_action_spec(fifo_count) == FifoAction::Read,
        1024 <= fifo_count ==> fifo_action_spec(fifo_count) == FifoAction::Reset,
{
}

/// The raw readings in one DMP FIFO packet.
#[derive(Clone, Copy, Debug, PartialEq, Eq)]
pub struct DmpPacket {
    /// The quaternion bytes (four big-endian `i32`: w, x, y, z).
    pub quat: [u8; 16],
    /// Raw gyroscope reading (x, y, z).
    pub gyro: [i16; 3],
    /// Raw accelerometer reading (x, y, z).
    pub accel: [i16; 3],
}

/// Three big-endian signed 16-bit values from six bytes.
pub open spec fn be_triple(d: Seq<u8>) -> [i16; 3] {
    [i16_from_be(d[0], d[1]), i16_from_be(d[2], d[3]), i16_from_be(d[4], d[5])]
}

/// Calls `mpu6050_dmp::accel::Accel::from_bytes` and reads back its three axes.
/// The contract claims what the crate's source shows: each axis is the
/// big-endian `i16` of its two bytes, in the order x, y, z.
#[verifier::external_body]
fn raw_accel(data: [u8; 6]) -> (r: [i16; 3])
    ensures
        r == be_triple(data@),
{
    let a = mpu6050_dmp::accel::Accel::from_bytes(data);
    [a.x(), a.y(), a.z()]
}

/// Calls `mpu6050_dmp::gyro::Gyro::from_bytes` and reads back its three axes.
/// The contract claims what the crate's source shows: each axis is the
/// big-endian `i16` of its two bytes, in the order x, y, z.
#[verifier::external_body]
fn raw_gyro(data: [u8; 6]) -> (r: [i16; 3])
    ensures
        r == be_triple(data@),
{
    let g = mpu6050_dmp::gyro::Gyro::from_bytes(data);
    [g.x(), g.y(), g.z()]
}

/// Cuts a DMP FIFO packet into its quaternion bytes (0..16), gyroscope
/// reading (16..22) and accelerometer reading (22..28).
pub fn split_dmp_packet(buf: &[u8; 28]) -> (p: DmpPacket)
    ensures
        p.quat@ == buf@.subrange(0, 16),
        p.gyro == be_triple(buf@.subrange(16, 22)),
        p.accel == be_triple(buf@.subrange(22, 28)),
{
    let mut quat = [0u8; 16];
    let mut i: usize = 0;
    while i < 16
        invariant
            i <= 16,
            forall|k: int| 0 <= k < i ==> quat@[k] == buf@[k],
        decreases 16 - i,
    {
        quat[i] = buf[i];
        i = i + 1;
    }
    let g = [buf[16], buf[17], buf[18], buf[19], buf[20], buf[21]];
    let a = [buf[22], buf[23], buf[24], buf[25], buf[26], buf[27]];
    let gyro = raw_gyro(g);
    let accel = raw_accel(a);
    assert(quat@ =~= buf@.subrange(0, 16));
    assert(g@ =~= buf@.subrange(16, 22));
    assert(a@ =~= buf@.subrange(22, 28));
    DmpPacket { quat, gyro, accel }
}

impl ImuData {
    /// The sample the task sends for scaled readings: acceleration and angular
    /// rate as given, and the quaternion `q = [w, x, y, z]` sent as `[w, y, y, z]`.
    pub fn from_dmp(accel: Tri, gyro: Tri, q: [u32; 4]) -> (d: ImuData)
        ensures
            d.accel == accel,
            d.gyro == gyro,
            d.quat == [q[0], q[2], q[2], q[3]],
    {
        ImuData { accel, gyro, quat: [q[0], q[2], q[2], q[3]] }
    }
}

/// The state of the IMU task between events: the status it reports and the
/// number of samples sent since the last log line.
pub struct ImuTask {
    status: Status,
    samples: u32,
}

impl ImuTask {
    /// The status the task reports.
    pub closed spec fn spec_status(self) -> Status {
        self.status
    }

    /// Samples sent since the last log line.
    pub closed spec fn spec_samples(self) -> u32 {
        self.samples
    }

    /// A task that is initializing with the default calibration offsets.
    pub fn new() -> (t: ImuTask)
        ensures
            t.spec_status() == (Status {
                status: ImuStatus::Initializing,
                accel: DEFAULT_ACCEL_CALIBRATION,
                gyro: DEFAULT_GYRO_CALIBRATION,
            }),
            t.spec_samples() == 0,
    {
        ImuTask { status: Status::new(DEFAULT_ACCEL_CALIBRATION, DEFAULT_GYRO_CALIBRATION), samples: 0 }
    }

    /// The status the task reports.
    pub fn status(&self) -> (s: Status)
        ensures
            s == self.spec_status(),
    {
        self.status
    }

    /// The sensor is set up: the task is ready; returns the packet to report.
    pub fn on_initialized(&mut self) -> (packet: [u8; 32])
        ensures
            final(self).spec_status() == (Status {
                status: ImuStatus::Ready,
                accel: old(self).spec_status().accel,
                gyro: old(self).spec_status().gyro,
            }),
            final(self).spec_samples() == old(self).spec_samples(),
            packet@ == final(self).spec_status().le_encoding(),
    {
        self.status.set_status(ImuStatus::Ready);
        self.status.status_packet()
    }

    /// A queued command arrives. A calibration command puts the task into the
    /// calibrating state and returns the packet to report before the sensor
    /// calibrates; any other command changes nothing and returns `None`.
    pub fn on_command(&mut self, cmd: ImuCommand) -> (packet: Option<[u8; 32]>)
        ensures
            cmd == ImuCommand::Calibrate ==> {
                &&& final(self).spec_status() == (Status {
                    status: ImuStatus::Calibrating,
                    accel: old(self).spec_status().accel,
                    gyro: old(self).spec_status().gyro,
                })
                &&& packet matches Some(p) && p@ == final(self).spec_status().le_encoding()
            },
            cmd != ImuCommand::Calibrate ==> final(self).spec_status() == old(self).spec_status()
                && packet is None,
            final(self).spec_samples() == old(self).spec_samples(),
    {
        match cmd {
            ImuCommand::Calibrate => {
                self.status.set_status(ImuStatus::Calibrating);
                Some(self.status.status_packet())
            },
            _ => None,
        }
    }

    /// The sensor finished calibrating with offsets `accel` and `gyro`: the
    /// task is ready again with the new offsets; returns the packet to report.
    pub fn on_calibrated(&mut self, accel: [i16; 3], gyro: [i16; 3]) -> (packet: [u8; 32])
        ensures
            final(self).spec_status() == (Status { status: ImuStatus::Ready, accel, gyro }),
            final(self).spec_samples() == old(self).spec_samples(),
            packet@ == final(self).spec_status().le_encoding(),
    {
        self.status.set_status(ImuStatus::Ready);
        self.status.set_calibration((accel, gyro));
        self.status.status_packet()
    }

    /// A DMP sample arrived. It is sent only while the task is ready (after
    /// initialization, and not during a calibration); otherwise nothing
    /// changes. Each sent sample counts, and when the count passes
    /// `LOG_INTERVAL` a log line is due and the count starts again from zero.
    pub fn on_sample(&mut self) -> (step: SampleStep)
        ensures
            step.send == (old(self).spec_status().status == ImuStatus::Ready),
            step.send ==> step.log == (old(self).spec_samples() >= LOG_INTERVAL),
            step.send ==> final(self).spec_samples() == (if step.log {
                0
            } else {
                old(self).spec_samples() + 1
            }),
            step.send ==> final(self).spec_samples() <= LOG_INTERVAL,
            !step.send ==> !step.log && final(self).spec_samples() == old(self).spec_samples(),
            final(self).spec_status() == old(self).spec_status(),
    {
        if self.status.status != ImuStatus::Ready {
            SampleStep { send: false, log: false }
        } else if self.samples >= LOG_INTERVAL {
            self.samples = 0;
            SampleStep { send: true, log: true }
        } else {
            self.samples = self.samples + 1;
            SampleStep { send: true, log: false }
        }
    }
}

/// What the task does with a DMP sample: whether it sends it, and whether it
/// logs it.
#[derive(Clone, Copy, Debug, PartialEq, Eq, Structural)]
pub struct SampleStep {
    pub send: bool,
    pub log: bool,
}

/// Every status packet the task reports reads back, on the host, as the
/// status the task is in.
pub proof fn lemma_reported_status_reads_back(t: ImuTask, packet: Seq<u8>)
    requires
        packet == t.spec_status().le_encoding(),
    ensures
        Status::le_decoding(packet) == t.spec_status(),
{
    lemma_status_roundtrip(t.spec_status(), Seq::empty());
    assert(packet + Seq::<u8>::empty() =~= packet);
}

/// Counts failed attempts to advertise; the firmware gives up after too many.
pub struct AdvertiseRetry {
    errors: u32,
}

/// Failed advertisements that the firmware tolerates.
pub const MAX_ADVERTISE_ERRORS: u32 = 5;

impl AdvertiseRetry {
    /// Failures counted so far.
    pub closed spec fn spec_errors(self) -> u32 {
        self.errors
    }

    /// No failure yet.
    pub fn new() -> (r: AdvertiseRetry)
        ensures
            r.spec_errors() == 0,
    {
        AdvertiseRetry { errors: 0 }
    }

    /// Failures counted so far.
    pub fn errors(&self) -> (n: u32)
        ensures
            n == self.spec_errors(),
    {
        self.errors
    }

    /// An advertisement failed. Returns whether to give up: after the count
    /// goes above `MAX_ADVERTISE_ERRORS`.
    pub fn on_error(&mut self) -> (give_up: bool)
        requires
            old(self).spec_errors() <= MAX_ADVERTISE_ERRORS,
        ensures
            final(self).spec_errors() == old(self).spec_errors() + 1,
            give_up == (final(self).spec_errors() > MAX_ADVERTISE_ERRORS),
    {
        self.errors = self.errors + 1;
        self.errors > MAX_ADVERTISE_ERRORS
    }
}

} // verus!
