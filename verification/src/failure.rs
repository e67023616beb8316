//! What can end a run before the device is wiped, and with what the
//! process then exits.

use vstd::prelude::*;
use crate::args::ArgError;
use crate::dev::aligned::AllocError;
use crate::dev::is_busy_code;
use crate::dev::is_device_busy;
use crate::dev::IoFailure;
use crate::wipe::engine::PassError;
use crate::wipe::plan::Fill;

verus! {

/// The exit code of a run that wiped the device.
pub const EXIT_SUCCESS: i32 = 0;

/// The exit code of a run that ended on a fatal error.
pub const EXIT_FAILURE: i32 = 1;

/// Seconds the operator is given to abort before the first byte is
/// written.
pub const GRACE_SECONDS: u64 = 5;

/// Why a run ended without wiping the device. Each of these is fatal:
/// nothing is retried and nothing is resumed.
#[derive(Clone, Copy, Debug, PartialEq, Eq, Structural)]
pub enum RunError {
    /// The command line gives no configuration.
    Configuration(ArgError),
    /// The device's size could not be determined.
    DeviceQuery(IoFailure),
    /// The write buffers could not be had.
    Allocation(AllocError),
    /// The device could not be opened for writing.
    DeviceOpen(IoFailure),
    /// The handle could not be set back to the start of the device.
    Rewind(IoFailure),
    /// A pass failed.
    Pass { index: usize, fill: Fill, error: PassError },
}

impl RunError {
    /// The failure of the operating system behind the error, where the
    /// error is about the device itself being asked or opened.
    pub open spec fn device_failure(self) -> Option<IoFailure> {
        match self {
            RunError::DeviceQuery(failure) => Some(failure),
            RunError::DeviceOpen(failure) => Some(failure),
            _ => None,
        }
    }

    /// The exit code of the process: zero where only help was asked for,
    /// one for every error.
    pub fn exit_code(&self) -> (code: i32)
        ensures
            code == (if *self == RunError::Configuration(ArgError::Help) {
                EXIT_SUCCESS
            } else {
                EXIT_FAILURE
            }),
    {
        match self {
            RunError::Configuration(e) => e.exit_code(),
            _ => EXIT_FAILURE,
        }
    }

    /// Whether the user is to be told how to release a busy device: when
    /// asking the device for its size, or opening it, failed because it is
    /// in use.
    pub fn needs_busy_help(&self) -> (b: bool)
        ensures
            self.device_failure() is None ==> !b,
            self.device_failure() matches Some(failure) ==> exists|busy: i32|
                b == is_busy_code(failure, busy),
            self.device_failure() matches Some(failure) ==> (failure.os_code is None ==> !b),
    {
        match self {
            RunError::DeviceQuery(failure) => is_device_busy(*failure),
            RunError::DeviceOpen(failure) => is_device_busy(*failure),
            _ => false,
        }
    }
}

} // verus!
