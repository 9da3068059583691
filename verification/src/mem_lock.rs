//! The self-protection memory-lock policy: which lock requests the daemon
//! makes, in which order, and how the raw failure codes of the lock call map
//! onto the closed error taxonomy. The call itself is made by the
//! surrounding daemon; locking is best-effort and its failure never stops
//! the kill logic.

use vstd::prelude::*;

use crate::error::{Error, EAGAIN, EINVAL, ENOMEM, EPERM};

verus! {

/// Lock pages currently mapped into the address space.
pub const MCL_CURRENT: i32 = 1;

/// Lock pages that become mapped in the future.
pub const MCL_FUTURE: i32 = 2;

/// Do not fault the locked pages in up front.
pub const MCL_ONFAULT: i32 = 4;

/// The strongest self-protection request, tried first: current and future
/// mappings, including pages not yet faulted in.
pub const MLOCKALL_PREFERRED_FLAGS: i32 = MCL_CURRENT | MCL_FUTURE | MCL_ONFAULT;

/// The reduced request retried after the preferred one fails: current and
/// future mappings only. Only this request's outcome reaches the caller.
pub const MLOCKALL_FALLBACK_FLAGS: i32 = MCL_CURRENT | MCL_FUTURE;

/// Maps the raw error code reported by a failed memory-lock call onto the
/// closed taxonomy of lock failures. Total: every code outside the four
/// documented ones resolves to the catch-all kind.
pub fn map_mlockall_errno(code: i32) -> (e: Error)
    ensures
        code == EAGAIN ==> e == Error::CouldNotLockMemoryError,
        code == EINVAL ==> e == Error::InvalidFlagsError,
        code == ENOMEM ==> e == Error::TooMuchMemoryToLockError,
        code == EPERM ==> e == Error::PermissionError,
        (code != EAGAIN && code != EINVAL && code != ENOMEM && code != EPERM) ==> e
            == Error::UnknownMlockallError,
{
    if code == EAGAIN {
        // Some or all of the requested memory could not be locked right now.
        Error::CouldNotLockMemoryError
    } else if code == EINVAL {
        // The flags argument was zero or carried unimplemented flags.
        Error::InvalidFlagsError
    } else if code == ENOMEM {
        // Locking everything mapped would exceed the allowed amount.
        Error::TooMuchMemoryToLockError
    } else if code == EPERM {
        // The caller lacks the privilege to lock memory.
        Error::PermissionError
    } else {
        Error::UnknownMlockallError
    }
}

} // verus!
