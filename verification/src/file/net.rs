//! Sockets behind descriptors.

use crate::file::fs::Kstat;
use crate::time::TimeValue;
use crate::vfs::error::VfsError;
use vstd::prelude::*;

verus! {

/// The type bits of a socket in a file mode.
pub const S_IFSOCK: u32 = 0o140000;

/// The status record of a socket: a socket that everyone may read, write
/// and execute, with a block size of 4096 and nothing else set.
pub fn socket_stat() -> (kstat: Kstat)
    ensures
        kstat == (Kstat {
            dev: 0,
            ino: 0,
            mode: 0o140777,
            nlink: 0,
            uid: 0,
            gid: 0,
            size: 0,
            blksize: 4096,
            blocks: 0,
            rdev: 0,
            atime: TimeValue { secs: 0, nanos: 0 },
            mtime: TimeValue { secs: 0, nanos: 0 },
            ctime: TimeValue { secs: 0, nanos: 0 },
        }),
{
    assert(0o140000u32 | 0o777u32 == 0o140777u32) by (bit_vector);
    let zero = TimeValue { secs: 0, nanos: 0 };
    Kstat {
        dev: 0,
        ino: 0,
        mode: S_IFSOCK | 0o777u32,
        nlink: 0,
        uid: 0,
        gid: 0,
        size: 0,
        blksize: 4096,
        blocks: 0,
        rdev: 0,
        atime: zero,
        mtime: zero,
        ctime: zero,
    }
}

/// A descriptor used as a socket must be one.
pub fn socket_from_fd(is_socket: bool) -> (r: Result<(), VfsError>)
    ensures
        r is Ok <==> is_socket,
        r is Err ==> r == Err::<(), VfsError>(VfsError::NotASocket),
{
    if is_socket {
        Ok(())
    } else {
        Err(VfsError::NotASocket)
    }
}

} // verus!
