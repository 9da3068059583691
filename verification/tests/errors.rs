use bustd::error::{Error, EAGAIN, EINVAL, ENOMEM, EPERM, ESRCH};
use bustd::kill::{group_signal_target, map_kill_errno};
use bustd::mem_lock::{
    map_mlockall_errno, MCL_CURRENT, MCL_FUTURE, MCL_ONFAULT, MLOCKALL_FALLBACK_FLAGS,
    MLOCKALL_PREFERRED_FLAGS,
};

#[test]
fn kill_failure_codes_map_to_the_four_documented_kinds() {
    assert_eq!(map_kill_errno(EINVAL), Error::InvalidSignal);
    assert_eq!(map_kill_errno(EPERM), Error::NoPermission);
    assert_eq!(map_kill_errno(ESRCH), Error::ProcessNotFound("kill"));
    assert_eq!(map_kill_errno(0), Error::UnknownKillError);
    assert_eq!(map_kill_errno(99), Error::UnknownKillError);
    assert_eq!(map_kill_errno(-1), Error::UnknownKillError);
}

#[test]
fn mlockall_failure_codes_map_to_the_documented_kinds() {
    assert_eq!(map_mlockall_errno(EAGAIN), Error::CouldNotLockMemoryError);
    assert_eq!(map_mlockall_errno(EINVAL), Error::InvalidFlagsError);
    assert_eq!(map_mlockall_errno(ENOMEM), Error::TooMuchMemoryToLockError);
    assert_eq!(map_mlockall_errno(EPERM), Error::PermissionError);
    assert_eq!(map_mlockall_errno(0), Error::UnknownMlockallError);
    assert_eq!(map_mlockall_errno(77), Error::UnknownMlockallError);
}

#[test]
fn errno_values_match_the_platform() {
    assert_eq!(EPERM, libc::EPERM);
    assert_eq!(ESRCH, libc::ESRCH);
    assert_eq!(EAGAIN, libc::EAGAIN);
    assert_eq!(ENOMEM, libc::ENOMEM);
    assert_eq!(EINVAL, libc::EINVAL);
}

#[test]
fn lock_flags_match_the_platform() {
    assert_eq!(MCL_CURRENT, libc::MCL_CURRENT);
    assert_eq!(MCL_FUTURE, libc::MCL_FUTURE);
    assert_eq!(MLOCKALL_PREFERRED_FLAGS, MCL_CURRENT | MCL_FUTURE | MCL_ONFAULT);
    assert_eq!(MLOCKALL_FALLBACK_FLAGS, MCL_CURRENT | MCL_FUTURE);
}

#[test]
fn group_target_is_the_negated_group_id() {
    assert_eq!(group_signal_target(1234), -1234);
    assert_eq!(group_signal_target(2), -2);
}
