//! Commands sent to the IMU and the states it reports, with their one-byte wire codes.
//!
//! Each enum converts to its code and back; a code with no variant reads as the
//! enum's default variant.
use vstd::prelude::*;
use vstd::std_specs::convert::FromSpecImpl;

verus! {

/// A command written to the IMU configuration characteristic.
#[derive(Clone, Copy, Debug, PartialEq, Eq, Structural)]
#[non_exhaustive]
pub enum ImuCommand {
    /// No action (code 0); also what an unknown code reads as.
    NoOp,
    /// Recalibrate the accelerometer and gyroscope offsets (code 1).
    Calibrate,
}

/// The state the IMU reports in the first byte of its status packet.
#[derive(Clone, Copy, Debug, PartialEq, Eq, Structural)]
pub enum ImuStatus {
    /// The sensor is being set up (code 0); also what an unknown code reads as.
    Initializing,
    /// The sensor streams data (code 1).
    Ready,
    /// A calibration is running (code 2).
    Calibrating,
}

/// The wire code of a command.
pub open spec fn command_code(c: ImuCommand) -> u8 {
    match c {
        ImuCommand::NoOp => 0,
        ImuCommand::Calibrate => 1,
    }
}

/// The command a wire code stands for; codes without a command read as `NoOp`.
pub open spec fn command_of_code(n: u8) -> ImuCommand {
    if n == 1 {
        ImuCommand::Calibrate
    } else {
        ImuCommand::NoOp
    }
}

/// The wire code of a status.
pub open spec fn status_code(s: ImuStatus) -> u8 {
    match s {
        ImuStatus::Initializing => 0,
        ImuStatus::Ready => 1,
        ImuStatus::Calibrating => 2,
    }
}

/// The status a wire code stands for; codes without a status read as `Initializing`.
pub open spec fn status_of_code(n: u8) -> ImuStatus {
    if n == 1 {
        ImuStatus::Ready
    } else if n == 2 {
        ImuStatus::Calibrating
    } else {
        ImuStatus::Initializing
    }
}

impl ImuCommand {
    /// The command that a wire code stands for (`NoOp` for an unknown code).
    pub fn from_primitive(n: u8) -> (c: ImuCommand)
        ensures
            c == command_of_code(n),
    {
        if n == 1 {
            ImuCommand::Calibrate
        } else {
            ImuCommand::NoOp
        }
    }

    /// The wire code of this command.
    pub fn into_primitive(self) -> (n: u8)
        ensures
            n == command_code(self),
    {
        match self {
            ImuCommand::NoOp => 0,
            ImuCommand::Calibrate => 1,
        }
    }
}

impl ImuStatus {
    /// The status that a wire code stands for (`Initializing` for an unknown code).
    pub fn from_primitive(n: u8) -> (s: ImuStatus)
        ensures
            s == status_of_code(n),
    {
        if n == 1 {
            ImuStatus::Ready
        } else if n == 2 {
            ImuStatus::Calibrating
        } else {
            ImuStatus::Initializing
        }
    }

    /// The wire code of this status.
    pub fn into_primitive(self) -> (n: u8)
        ensures
            n == status_code(self),
    {
        match self {
            ImuStatus::Initializing => 0,
            ImuStatus::Ready => 1,
            ImuStatus::Calibrating => 2,
        }
    }
}

impl Default for ImuCommand {
    fn default() -> (c: ImuCommand)
        ensures
            c == ImuCommand::NoOp,
    {
        ImuCommand::NoOp
    }
}

impl Default for ImuStatus {
    fn default() -> (s: ImuStatus)
        ensures
            s == ImuStatus::Initializing,
    {
        ImuStatus::Initializing
    }
}

impl From<ImuCommand> for u8 {
    fn from(c: ImuCommand) -> (n: u8) {
        c.into_primitive()
    }
}

impl FromSpecImpl<ImuCommand> for u8 {
    open spec fn obeys_from_spec() -> bool {
        true
    }

    open spec fn from_spec(c: ImuCommand) -> u8 {
        command_code(c)
    }
}

impl From<u8> for ImuCommand {
    fn from(n: u8) -> (c: ImuCommand) {
        ImuCommand::from_primitive(n)
    }
}

impl FromSpecImpl<u8> for ImuCommand {
    open spec fn obeys_from_spec() -> bool {
        true
    }

    open spec fn from_spec(n: u8) -> ImuCommand {
        command_of_code(n)
    }
}

impl From<ImuStatus> for u8 {
    fn from(s: ImuStatus) -> (n: u8) {
        s.into_primitive()
    }
}

impl FromSpecImpl<ImuStatus> for u8 {
    open spec fn obeys_from_spec() -> bool {
        true
    }

    open spec fn from_spec(s: ImuStatus) -> u8 {
        status_code(s)
    }
}

impl From<u8> for ImuStatus {
    fn from(n: u8) -> (s: ImuStatus) {
        if n == 1 {
            ImuStatus::Ready
        } else if n == 2 {
            ImuStatus::Calibrating
        } else {
            ImuStatus::Initializing
        }
    }
}

impl FromSpecImpl<u8> for ImuStatus {
    open spec fn obeys_from_spec() -> bool {
        true
    }

    open spec fn from_spec(n: u8) -> ImuStatus {
        status_of_code(n)
    }
}

/// Reading back the code of a command gives the command; a code reads back to
/// itself exactly when it names a command, and every other code reads as the default.
pub proof fn lemma_command_code_roundtrip(c: ImuCommand, n: u8)
    ensures
        command_of_code(command_code(c)) == c,
        command_code(command_of_code(n)) == n <==> n <= 1,
        n > 1 ==> command_of_code(n) == ImuCommand::NoOp,
{
}

/// Reading back the code of a status gives the status; a code reads back to
/// itself exactly when it names a status, and every other code reads as the default.
pub proof fn lemma_status_code_roundtrip(s: ImuStatus, n: u8)
    ensures
        status_of_code(status_code(s)) == s,
        status_code(status_of_code(n)) == n <==> n <= 2,
        n > 2 ==> status_of_code(n) == ImuStatus::Initializing,
{
}

} // verus!
