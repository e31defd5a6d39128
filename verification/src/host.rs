//! The decisions of the host that talks to the boot over Bluetooth: which
//! device is the boot, which characteristic is which, what a notification is,
//! how a calibration is followed, and the bytes of a command.
use vstd::prelude::*;
use crate::imu_conf::{command_code, command_of_code, ImuCommand, ImuStatus};
use crate::text::{occurs_in, str_contains};
use crate::uuids::{IMU_DATA_CHAR_UUID, IMU_STATUS_CHAR_UUID};

verus! {

/// The characters that a boot's advertised local name contains.
pub open spec fn skiboot_marker() -> Seq<char> {
    seq!['S', 'k', 'i', 'B', 'o', 'o', 't']
}

/// Whether an advertised local name is a boot's: it contains `SkiBoot`.
pub fn is_skiboot_name(name: &str) -> (r: bool)
    ensures
        r == occurs_in(skiboot_marker(), name@),
{
    let marker = ['S', 'k', 'i', 'B', 'o', 'o', 't'];
    assert(marker@ =~= skiboot_marker());
    str_contains(name, &marker)
}

/// Whether a peripheral with this (optional) local name is a boot.
pub fn is_skiboot(local_name: &Option<String>) -> (r: bool)
    ensures
        r == (local_name matches Some(n) && occurs_in(skiboot_marker(), n@)),
{
    match local_name {
        Some(n) => is_skiboot_name(n.as_str()),
        None => false,
    }
}

/// The position of the first characteristic with UUID `target` among `uuids`.
pub fn find_characteristic(uuids: &[u128], target: u128) -> (r: Option<usize>)
    ensures
        r matches Some(i) ==> (i < uuids@.len() && uuids@[i as int] == target && forall|j: int|
            0 <= j < i ==> uuids@[j] != target),
        r is None ==> forall|j: int| 0 <= j < uuids@.len() ==> uuids@[j] != target,
{
    let mut i: usize = 0;
    while i < uuids.len()
        invariant
            i <= uuids@.len(),
            forall|j: int| 0 <= j < i ==> uuids@[j] != target,
        decreases uuids@.len() - i,
    {
        if uuids[i] == target {
            return Some(i);
        }
        i = i + 1;
    }
    None
}

/// What a notification from the boot carries, by the UUID of its characteristic.
#[derive(Clone, Copy, Debug, PartialEq, Eq, Structural)]
pub enum Notification {
    /// An IMU sample.
    ImuData,
    /// A status report.
    Status,
    /// Anything else.
    Other,
}

/// The kind of a notification from the characteristic with UUID `uuid`.
pub fn classify_notification(uuid: u128) -> (k: Notification)
    ensures
        k == (if uuid == IMU_DATA_CHAR_UUID {
            Notification::ImuData
        } else if uuid == IMU_STATUS_CHAR_UUID {
            Notification::Status
        } else {
            Notification::Other
        }),
{
    if uuid == IMU_DATA_CHAR_UUID {
        Notification::ImuData
    } else if uuid == IMU_STATUS_CHAR_UUID {
        Notification::Status
    } else {
        Notification::Other
    }
}

/// The 8-byte payload written to the IMU configuration characteristic for a
/// command: the command's code, then zeros.
pub fn command_packet(cmd: ImuCommand) -> (p: [u8; 8])
    ensures
        p@ == seq![command_code(cmd)] + Seq::new(7, |i: int| 0u8),
{
    let mut data = [0u8; 8];
    data[0] = cmd.into_primitive();
    assert(data@ =~= seq![command_code(cmd)] + Seq::new(7, |i: int| 0u8));
    data
}

/// Follows a calibration through the stream of notifications.
///
/// The count starts at -2. A status report of `Calibrating` sets it to -1; the
/// first `Ready` report after that sets it to 0, and from then on every IMU
/// sample adds one: the count is the number of samples received since the
/// last calibration finished.
pub struct CalibrationWatch {
    status_count: i32,
}

/// The count after a status report `s`.
pub open spec fn count_after_status(count: int, s: ImuStatus) -> int {
    if s == ImuStatus::Calibrating {
        -1
    } else if s == ImuStatus::Ready && count == -1 {
        0
    } else {
        count
    }
}

/// The count after an IMU sample.
pub open spec fn count_after_sample(count: int) -> int {
    if count >= 0 {
        count + 1
    } else {
        count
    }
}

impl CalibrationWatch {
    /// The current count.
    pub closed spec fn count(self) -> int {
        self.status_count as int
    }

    /// A watch that has seen nothing yet.
    pub fn new() -> (w: CalibrationWatch)
        ensures
            w.count() == -2,
    {
        CalibrationWatch { status_count: -2 }
    }

    /// The current count.
    pub fn status_count(&self) -> (c: i32)
        ensures
            c == self.count(),
    {
        self.status_count
    }

    /// A status report arrived.
    pub fn on_status(&mut self, s: ImuStatus)
        ensures
            final(self).count() == count_after_status(old(self).count(), s),
            old(self).count() >= -2 ==> final(self).count() >= -2,
    {
        if s == ImuStatus::Calibrating {
            self.status_count = -1;
        } else if s == ImuStatus::Ready && self.status_count == -1 {
            self.status_count = 0;
        }
    }

    /// An IMU sample arrived. The count must have room for one more.
    pub fn on_imu_data(&mut self)
        requires
            old(self).count() < i32::MAX,
        ensures
            final(self).count() == count_after_sample(old(self).count()),
            old(self).count() >= 0 ==> final(self).count() == old(self).count() + 1,
            old(self).count() < 0 ==> final(self).count() == old(self).count(),
            old(self).count() >= -2 ==> final(self).count() >= -2,
    {
        if self.status_count >= 0 {
            self.status_count = self.status_count + 1;
        }
    }
}

/// The count after `k` samples, starting from `count`.
pub open spec fn count_after_samples(count: int, k: nat) -> int
    decreases k,
{
    if k == 0 {
        count
    } else {
        count_after_sample(count_after_samples(count, (k - 1) as nat))
    }
}

/// Once a calibration has finished, each sample adds exactly one to the
/// count, and before that samples leave it alone.
pub proof fn lemma_sample_counts_one(count: int)
    ensures
        count >= 0 ==> count_after_sample(count) == count + 1,
        count < 0 ==> count_after_sample(count) == count,
{
}

/// After a calibration is reported started and then finished, the count is
/// the number of samples received since: after `k` samples it is `k`,
/// whatever the count was before.
pub proof fn lemma_count_after_calibration(count: int, k: nat)
    ensures
        count_after_samples(
            count_after_status(count_after_status(count, ImuStatus::Calibrating), ImuStatus::Ready),
            k,
        ) == k,
    decreases k,
{
    if k > 0 {
        lemma_count_after_calibration(count, (k - 1) as nat);
    }
}

/// The command the host writes is the command the sensor reads: the first
/// byte of a command packet reads back as that command.
pub proof fn lemma_command_packet_roundtrip(cmd: ImuCommand)
    ensures
        command_of_code((seq![command_code(cmd)] + Seq::new(7, |i: int| 0u8))[0]) == cmd,
{
}

} // verus!
