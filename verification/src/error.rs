//! The closed error taxonomy of the daemon, together with the raw Linux
//! error codes that the kernel-facing calls report and that are mapped onto
//! it. Raw numeric codes never leak past the mapping functions defined near
//! the calls themselves.

use vstd::prelude::*;

verus! {

/// Operation not permitted.
pub const EPERM: i32 = 1;

/// No such process.
pub const ESRCH: i32 = 3;

/// Resource temporarily unavailable.
pub const EAGAIN: i32 = 11;

/// Out of memory (for `mlockall`: the lock would exceed a limit).
pub const ENOMEM: i32 = 12;

/// Invalid argument.
pub const EINVAL: i32 = 22;

/// Every failure the daemon can report, one variant per documented cause.
#[derive(Clone, Copy, Debug, PartialEq, Eq)]
pub enum Error {
    /// No process matched: either the named operation found its target gone,
    /// or selection found no eligible candidate at all.
    ProcessNotFound(&'static str),
    /// A signal value the OS does not recognize was requested.
    InvalidSignal,
    /// The caller lacks the rights to signal the target process.
    NoPermission,
    /// Signal delivery failed for a reason outside the documented cases.
    UnknownKillError,
    /// The system-information query itself failed.
    SysInfoFailedError,
    /// Some of the requested memory could not be locked at this time.
    CouldNotLockMemoryError,
    /// The memory-lock request carried zero or unimplemented flags.
    InvalidFlagsError,
    /// Locking everything requested would exceed the allowed amount.
    TooMuchMemoryToLockError,
    /// The caller lacks the privilege to lock memory.
    PermissionError,
    /// The memory-lock call failed for a reason outside the documented cases.
    UnknownMlockallError,
}

pub type Result<T> = core::result::Result<T, Error>;

} // verus!
