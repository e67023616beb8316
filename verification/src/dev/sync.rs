//! The sync policy: which failures of a flush count as "no such flush on
//! this device", and what a soft and a hard sync make of them. Also how a
//! busy device is told.

use vstd::prelude::*;
use vstd::string::*;

verus! {

/// An I/O failure reduced to what the engine decides on: the operating
/// system's error code, where the failure carries one.
#[derive(Clone, Copy, Debug, PartialEq, Eq, Structural)]
pub struct IoFailure {
    pub os_code: Option<i32>,
}

/// The platform's code for "inappropriate ioctl for device". Nothing is
/// claimed of its value, which differs between targets: this is
/// `libc::ENOTTY`.
#[verifier::external_body]
fn errno_not_a_tty() -> (code: i32) {
    libc::ENOTTY
}

/// The platform's code for "operation not supported". Nothing is claimed of
/// its value, which differs between targets: this is `libc::ENOTSUP`.
#[verifier::external_body]
fn errno_not_supported() -> (code: i32) {
    libc::ENOTSUP
}

/// The platform's code for "invalid argument". Nothing is claimed of its
/// value, which differs between targets: this is `libc::EINVAL`.
#[verifier::external_body]
fn errno_invalid() -> (code: i32) {
    libc::EINVAL
}

/// The platform's code for "device or resource busy". Nothing is claimed of
/// its value, which differs between targets: this is `libc::EBUSY`.
#[verifier::external_body]
fn errno_busy() -> (code: i32) {
    libc::EBUSY
}

/// The error codes by which a device says that it has no such flush
/// operation. Raw block devices often lack one, and a flush that fails this
/// way counts as done.
#[derive(Clone, Copy, Debug, PartialEq, Eq, Structural)]
pub struct UnsupportedCodes {
    pub not_a_tty: i32,
    pub not_supported: i32,
    pub invalid: i32,
}

impl UnsupportedCodes {
    /// Whether `failure` carries one of the three codes.
    pub open spec fn covers(&self, failure: IoFailure) -> bool {
        match failure.os_code {
            Some(code) => code == self.not_a_tty || code == self.not_supported || code
                == self.invalid,
            None => false,
        }
    }

    /// The three codes as the running platform defines them.
    pub fn platform() -> (codes: UnsupportedCodes) {
        let not_a_tty: i32 = errno_not_a_tty();
        let not_supported: i32 = errno_not_supported();
        let invalid: i32 = errno_invalid();
        UnsupportedCodes { not_a_tty, not_supported, invalid }
    }

    /// Whether `failure` means "not supported on this class of device".
    pub fn is_unsupported(&self, failure: IoFailure) -> (b: bool)
        ensures
            b == self.covers(failure),
    {
        match failure.os_code {
            Some(code) => code == self.not_a_tty || code == self.not_supported || code
                == self.invalid,
            None => false,
        }
    }
}

/// What a soft sync answers for the outcome of the flush it made.
pub open spec fn soft_sync_result(
    outcome: Result<(), IoFailure>,
    codes: UnsupportedCodes,
) -> Result<(), IoFailure> {
    match outcome {
        Ok(()) => Ok(()),
        Err(failure) => if codes.covers(failure) {
            Ok(())
        } else {
            Err(failure)
        },
    }
}

/// Soft sync, decided for given codes: success stays success, a failure in
/// the unsupported class becomes success, any other failure is handed on
/// unchanged.
pub fn soft_sync_verdict(outcome: Result<(), IoFailure>, codes: &UnsupportedCodes) -> (r: Result<
    (),
    IoFailure,
>)
    ensures
        r == soft_sync_result(outcome, *codes),
{
    match outcome {
        Ok(()) => Ok(()),
        Err(failure) => {
            if codes.is_unsupported(failure) {
                Ok(())
            } else {
                Err(failure)
            }
        },
    }
}

/// Soft sync: takes the outcome of the best-effort flush and swallows
/// "not supported" failures, judged by the running platform's codes.
///
/// A successful flush is always a success, and a failure without an OS code
/// is always handed on.
pub fn safe_sync(outcome: Result<(), IoFailure>) -> (r: Result<(), IoFailure>)
    ensures
        exists|codes: UnsupportedCodes| r == soft_sync_result(outcome, codes),
        outcome is Ok ==> r is Ok,
        outcome matches Err(failure) ==> (failure.os_code is None ==> r == outcome),
        r matches Err(failure) ==> outcome == r,
{
    let codes: UnsupportedCodes = UnsupportedCodes::platform();
    soft_sync_verdict(outcome, &codes)
}

/// What a hard sync does next, once its strongest flush has returned.
#[derive(Clone, Copy, Debug, PartialEq, Eq, Structural)]
pub enum HardSync {
    /// The strongest flush went through.
    Done,
    /// The device has no such flush: fall back to the soft sync.
    FallBack,
    /// The flush failed for another reason; the pass is over.
    Fatal(IoFailure),
}

/// What a hard sync answers for the outcome of its strongest flush.
pub open spec fn hard_sync_result(
    outcome: Result<(), IoFailure>,
    codes: UnsupportedCodes,
) -> HardSync {
    match outcome {
        Ok(()) => HardSync::Done,
        Err(failure) => if codes.covers(failure) {
            HardSync::FallBack
        } else {
            HardSync::Fatal(failure)
        },
    }
}

/// Hard sync, decided for given codes: only a failure in the unsupported
/// class is tolerated, and it sends the caller to the soft sync.
pub fn hard_sync_verdict(outcome: Result<(), IoFailure>, codes: &UnsupportedCodes) -> (r: HardSync)
    ensures
        r == hard_sync_result(outcome, *codes),
{
    match outcome {
        Ok(()) => HardSync::Done,
        Err(failure) => {
            if codes.is_unsupported(failure) {
                HardSync::FallBack
            } else {
                HardSync::Fatal(failure)
            }
        },
    }
}

/// Hard sync: takes the outcome of the platform's strongest flush, judged by
/// the running platform's codes.
pub fn full_sync(outcome: Result<(), IoFailure>) -> (r: HardSync)
    ensures
        exists|codes: UnsupportedCodes| r == hard_sync_result(outcome, codes),
        outcome is Ok ==> r == HardSync::Done,
        outcome matches Err(failure) ==> (failure.os_code is None ==> r == HardSync::Fatal(failure)),
        r matches HardSync::Fatal(failure) ==> outcome == Err::<(), IoFailure>(failure),
{
    let codes: UnsupportedCodes = UnsupportedCodes::platform();
    hard_sync_verdict(outcome, &codes)
}

/// Whether `failure` carries the code `busy`.
pub open spec fn is_busy_code(failure: IoFailure, busy: i32) -> bool {
    failure.os_code == Some(busy)
}

/// Whether `failure` is the "busy" failure, for a given busy code.
pub fn busy_verdict(failure: IoFailure, busy: i32) -> (b: bool)
    ensures
        b == is_busy_code(failure, busy),
{
    match failure.os_code {
        Some(code) => code == busy,
        None => false,
    }
}

/// Whether a failed size query or open means that the device is in use, in
/// which case the user is to be told how to release it.
///
/// A failure without an OS code never counts as busy.
pub fn is_device_busy(failure: IoFailure) -> (b: bool)
    ensures
        exists|busy: i32| b == is_busy_code(failure, busy),
        failure.os_code is None ==> !b,
{
    let busy: i32 = errno_busy();
    busy_verdict(failure, busy)
}

/// What the user is told when the device is busy: how to find out what
/// holds it and how to release it.
pub open spec fn busy_help_text(device_path: Seq<char>) -> Seq<char> {
    "Device "@ + device_path + " is busy (it may be mounted).\nmacOS:  diskutil unmountDisk "@
        + device_path
        + "\nLinux:  sudo umount <mount point or /dev/..>\n        lsblk -f | grep $(basename "@
        + device_path + ")\n        sudo lsof "@ + device_path + "  | head\n        sudo fuser -mv "@
        + device_path + "\n        sudo swapoff -a\n        sudo dmsetup ls\n"@
}

/// The remediation steps for a busy device; see [`busy_help_text`].
pub fn busy_help(device_path: &str) -> (text: String)
    ensures
        text@ == busy_help_text(device_path@),
{
    let mut text: String = String::new();
    text.append("Device ");
    text.append(device_path);
    text.append(" is busy (it may be mounted).\nmacOS:  diskutil unmountDisk ");
    text.append(device_path);
    text.append(
        "\nLinux:  sudo umount <mount point or /dev/..>\n        lsblk -f | grep $(basename ",
    );
    text.append(device_path);
    text.append(")\n        sudo lsof ");
    text.append(device_path);
    text.append("  | head\n        sudo fuser -mv ");
    text.append(device_path);
    text.append("\n        sudo swapoff -a\n        sudo dmsetup ls\n");
    assert(text@ =~= busy_help_text(device_path@));
    text
}

} // verus!
