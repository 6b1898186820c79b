//! The single-instance guard: only one instance of the program may run.

use vstd::prelude::*;

verus! {

/// Name of the process-wide lock that marks a running instance.
pub const INSTANCE_TOKEN: &'static str = "whiteout-xwmzdj98";

/// How the attempt to take the instance lock ended.
#[derive(Clone, Copy, Debug, PartialEq, Eq, Structural)]
pub enum LockAttempt {
    /// This process holds the lock: it is the only instance.
    Acquired,
    /// Another running instance holds the lock.
    HeldElsewhere,
    /// The lock could not be created or examined.
    Unavailable,
}

/// Why the program must not start.
#[derive(Clone, Copy, Debug, PartialEq, Eq, Structural)]
pub enum StartupError {
    /// Another instance is already running.
    AlreadyRunning,
    /// The instance lock could not be taken at all.
    LockUnavailable,
}

/// Decides whether the program may go on to open windows. Anything but an
/// acquired lock is fatal, and is reported before any window is shown.
pub fn check_exclusive(attempt: LockAttempt) -> (verdict: Result<(), StartupError>)
    ensures
        verdict is Ok <==> attempt is Acquired,
        attempt is HeldElsewhere <==> verdict == Err::<(), StartupError>(
            StartupError::AlreadyRunning,
        ),
        attempt is Unavailable <==> verdict == Err::<(), StartupError>(
            StartupError::LockUnavailable,
        ),
{
    match attempt {
        LockAttempt::Acquired => Ok(()),
        LockAttempt::HeldElsewhere => Err(StartupError::AlreadyRunning),
        LockAttempt::Unavailable => Err(StartupError::LockUnavailable),
    }
}

} // verus!
