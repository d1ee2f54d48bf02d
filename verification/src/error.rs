//! Errors of the POSIX surface and their encoding as status words.

use axerrno::LinuxError;
use vstd::prelude::*;

verus! {

/// Why a call was refused.
#[derive(Clone, Copy, Debug, PartialEq, Eq, Structural)]
pub enum PosixError {
    /// A null, malformed or unsupported argument.
    InvalidArgument,
    /// The thread identity names no joinable thread.
    NoSuchThread,
    /// A thread asked to join itself.
    WouldDeadlock,
}

impl PosixError {
    /// The Linux error number of each error.
    pub open spec fn spec_errno(self) -> int {
        match self {
            PosixError::InvalidArgument => 22,
            PosixError::NoSuchThread => 3,
            PosixError::WouldDeadlock => 35,
        }
    }

    /// The Linux error number of this error: `EINVAL`, `ESRCH` or `EDEADLK`.
    pub fn errno(self) -> (code: i32)
        ensures
            code == self.spec_errno(),
    {
        linux_code(self)
    }
}

/// Asks `axerrno::LinuxError::code` for the number of the Linux error that
/// stands for `e`. Trusted: that `EINVAL`, `ESRCH` and `EDEADLK` carry the
/// numbers 22, 3 and 35, as that crate's table of error numbers lists them.
#[verifier::external_body]
fn linux_code(e: PosixError) -> (code: i32)
    ensures
        code == e.spec_errno(),
{
    let linux = match e {
        PosixError::InvalidArgument => LinuxError::EINVAL,
        PosixError::NoSuchThread => LinuxError::ESRCH,
        PosixError::WouldDeadlock => LinuxError::EDEADLK,
    };
    linux.code()
}

/// The status word of a call's outcome, as a mathematical integer.
pub open spec fn spec_status(outcome: Result<i32, PosixError>) -> int {
    match outcome {
        Ok(value) => value as int,
        Err(e) => -e.spec_errno(),
    }
}

/// Encodes an outcome as the status word that crosses the POSIX boundary:
/// the value itself on success, the negated error number on failure.
pub fn syscall_status(outcome: Result<i32, PosixError>) -> (status: i32)
    ensures
        status == spec_status(outcome),
{
    match outcome {
        Ok(value) => value,
        Err(e) => -e.errno(),
    }
}

} // verus!
