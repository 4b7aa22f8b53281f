//! Error kinds surfaced at the system-call boundary and the signed return
//! codes that stand for them.

use axerrno::{AxError, LinuxError};
use vstd::prelude::*;

verus! {

/// The ways an operation of this crate can fail.
///
/// No operation reports a partial success next to one of these.
#[derive(Clone, Copy, Debug, PartialEq, Eq, Structural)]
pub enum SysError {
    /// A region is misaligned, out of range, or lacks the permission asked for.
    InvalidAddress,
    /// Text read from user memory is not valid UTF-8.
    InvalidEncoding,
    /// The watched value had already changed, or a non-blocking attempt missed.
    WouldBlock,
    /// A timed wait ran out before a wake arrived.
    TimedOut,
    /// The owner of a robust lock died; delivered once to the next waiter.
    OwnerDied,
    /// The operation code is not known.
    Unsupported,
    /// A count or size is malformed.
    InvalidArgument,
}

impl SysError {
    /// The positive `errno` number that stands for this error.
    pub open spec fn spec_errno(self) -> int {
        match self {
            SysError::InvalidAddress => 14,
            SysError::InvalidEncoding => 84,
            SysError::WouldBlock => 11,
            SysError::TimedOut => 110,
            SysError::OwnerDied => 130,
            SysError::Unsupported => 38,
            SysError::InvalidArgument => 22,
        }
    }

    /// The positive `errno` number that stands for this error.
    pub fn errno(self) -> (code: i32)
        ensures
            code == self.spec_errno(),
            0 < code < 4096,
    {
        linux_code(self)
    }
}

/// Trusted: `axerrno`'s conversion of an `AxError` into a `LinuxError`,
/// followed by `LinuxError::code`. Each kind of this crate is handed over as
/// the `AxError` of the same meaning; the contract lists the number that
/// `axerrno` assigns to the resulting `LinuxError`.
#[verifier::external_body]
fn linux_code(e: SysError) -> (code: i32)
    ensures
        code == e.spec_errno(),
{
    let ax = match e {
        SysError::InvalidAddress => AxError::BadAddress,
        SysError::InvalidEncoding => AxError::IllegalBytes,
        SysError::WouldBlock => AxError::WouldBlock,
        SysError::TimedOut => AxError::TimedOut,
        SysError::OwnerDied => AxError::from(LinuxError::EOWNERDEAD),
        SysError::Unsupported => AxError::Unsupported,
        SysError::InvalidArgument => AxError::InvalidInput,
    };
    LinuxError::from(ax).code()
}

/// What a system call hands back to user space: the value on success, the
/// negated `errno` number on failure.
pub open spec fn spec_syscall_return(result: Result<isize, SysError>) -> int {
    match result {
        Ok(value) => value as int,
        Err(e) => -e.spec_errno(),
    }
}

/// Folds a result into the signed return-code convention.
pub fn syscall_return(result: Result<isize, SysError>) -> (ret: isize)
    ensures
        ret == spec_syscall_return(result),
{
    match result {
        Ok(value) => value,
        Err(e) => {
            let code: i32 = e.errno();
            -(code as isize)
        },
    }
}

} // verus!
