//! Opening, closing and duplicating file descriptors.

use crate::file::fd_table::{spec_slot, FdTable, FileDescriptor};
use crate::vfs::error::VfsError;
use crate::vfs::node::{permission_bits, OWNER_READ, OWNER_WRITE, PERMISSION_MASK};
use vstd::prelude::*;

verus! {

pub const O_RDONLY: u32 = 0;

pub const O_WRONLY: u32 = 1;

pub const O_RDWR: u32 = 2;

pub const O_CREAT: u32 = 0o100;

pub const O_EXCL: u32 = 0o200;

pub const O_TRUNC: u32 = 0o1000;

pub const O_APPEND: u32 = 0o2000;

pub const O_NONBLOCK: u32 = 0o4000;

pub const O_DIRECT: u32 = 0o40000;

pub const O_DIRECTORY: u32 = 0o200000;

pub const O_NOFOLLOW: u32 = 0o400000;

pub const O_CLOEXEC: u32 = 0o2000000;

pub const O_PATH: u32 = 0o10000000;

pub const FD_CLOEXEC: u32 = 1;

pub const F_DUPFD: u32 = 0;

pub const F_GETFD: u32 = 1;

pub const F_SETFD: u32 = 2;

pub const F_GETFL: u32 = 3;

pub const F_SETFL: u32 = 4;

pub const F_GETLK: u32 = 5;

pub const F_SETLK: u32 = 6;

pub const F_SETLKW: u32 = 7;

pub const F_OFD_GETLK: u32 = 36;

pub const F_OFD_SETLK: u32 = 37;

pub const F_OFD_SETLKW: u32 = 38;

pub const F_DUPFD_CLOEXEC: u32 = 1030;

pub const F_SETPIPE_SZ: u32 = 1031;

pub const F_GETPIPE_SZ: u32 = 1032;

/// The lock type that says "not locked".
pub const F_UNLCK: u32 = 2;

/// `close_range`: give the caller a table of its own first.
pub const CLOSE_RANGE_UNSHARE: u32 = 2;

/// `close_range`: mark the descriptors instead of closing them.
pub const CLOSE_RANGE_CLOEXEC: u32 = 4;

/// How a file is to be opened.
#[derive(Clone, Copy, Debug, PartialEq, Eq, Structural)]
pub struct OpenOptions {
    pub mode: u32,
    pub uid: u32,
    pub gid: u32,
    pub read: bool,
    pub write: bool,
    pub append: bool,
    pub truncate: bool,
    pub create: bool,
    pub path: bool,
    pub create_new: bool,
    pub directory: bool,
    pub no_follow: bool,
    pub direct: bool,
}

/// The open flags ask for what `bit` stands for.
pub open spec fn spec_has(flags: u32, bit: u32) -> bool {
    flags & bit != 0
}

/// The options that the open flags `flags` ask for, with the access mode
/// in the two low bits: read only, write only, or, for every other value,
/// both.
pub open spec fn spec_flags_to_options(flags: i32, mode: u32, uid: u32, gid: u32) -> OpenOptions {
    let flags = flags as u32;
    OpenOptions {
        mode,
        uid,
        gid,
        read: flags & 0b11 != O_WRONLY,
        write: flags & 0b11 != O_RDONLY,
        append: spec_has(flags, O_APPEND),
        truncate: spec_has(flags, O_TRUNC),
        create: spec_has(flags, O_CREAT),
        path: spec_has(flags, O_PATH),
        create_new: spec_has(flags, O_EXCL),
        directory: spec_has(flags, O_DIRECTORY),
        no_follow: spec_has(flags, O_NOFOLLOW),
        direct: spec_has(flags, O_DIRECT),
    }
}

/// Convert open flags to [`OpenOptions`].
pub fn flags_to_options(flags: i32, mode: u32, owner: (u32, u32)) -> (options: OpenOptions)
    ensures
        options == spec_flags_to_options(flags, mode, owner.0, owner.1),
{
    let flags: u32 = #[verifier::truncate] (flags as u32);
    let access: u32 = flags & 0b11;
    OpenOptions {
        mode,
        uid: owner.0,
        gid: owner.1,
        read: access != O_WRONLY,
        write: access != O_RDONLY,
        append: flags & O_APPEND != 0,
        truncate: flags & O_TRUNC != 0,
        create: flags & O_CREAT != 0,
        path: flags & O_PATH != 0,
        create_new: flags & O_EXCL != 0,
        directory: flags & O_DIRECTORY != 0,
        no_follow: flags & O_NOFOLLOW != 0,
        direct: flags & O_DIRECT != 0,
    }
}

/// The mode of a new file under the creation mask `umask`.
pub fn apply_umask(mode: u32, umask: u32) -> (masked: u32)
    ensures
        masked == mode & !umask,
{
    mode & !umask
}

/// What is to happen to a newly opened file before it gets its descriptor.
#[derive(Clone, Copy, Debug, PartialEq, Eq, Structural)]
pub struct AddToFd {
    /// The file is to be switched to non-blocking mode.
    pub nonblocking: bool,
    /// The descriptor is closed on execution.
    pub cloexec: bool,
}

/// Reads from the open flags how the new descriptor is to be set up.
pub fn add_to_fd(flags: u32) -> (setup: AddToFd)
    ensures
        setup.nonblocking == spec_has(flags, O_NONBLOCK),
        setup.cloexec == spec_has(flags, O_CLOEXEC),
{
    AddToFd { nonblocking: flags & O_NONBLOCK != 0, cloexec: flags & O_CLOEXEC != 0 }
}

/// Closes `fd`; fails where it stands for nothing.
pub fn sys_close(table: &mut FdTable, fd: i32) -> (r: Result<FileDescriptor, VfsError>)
    ensures
        match r {
            Ok(entry) => spec_slot(old(table)@, fd as int) == Some(entry) && final(table)@
                == old(table)@.update(fd as int, None),
            Err(e) => e == VfsError::BadFileDescriptor && spec_slot(old(table)@, fd as int) is None
                && final(table)@ == old(table)@,
        },
{
    match table.remove(fd) {
        Some(entry) => Ok(entry),
        None => Err(VfsError::BadFileDescriptor),
    }
}

/// What a valid `close_range` call asks for.
#[derive(Clone, Copy, Debug, PartialEq, Eq, Structural)]
pub struct CloseRange {
    /// The caller wants a table of its own before anything is closed.
    pub unshare: bool,
    /// The descriptors are to be marked, not closed.
    pub cloexec: bool,
}

/// What the arguments of `close_range` come to: the range must be in order
/// and start at zero or above, and no flag bit may be set but the two that
/// are known.
pub open spec fn spec_close_range_flags(first: i32, last: i32, flags: u32) -> Result<
    CloseRange,
    VfsError,
> {
    if first < 0 || last < first || flags & !(CLOSE_RANGE_UNSHARE | CLOSE_RANGE_CLOEXEC) != 0 {
        Err(VfsError::InvalidInput)
    } else {
        Ok(
            CloseRange {
                unshare: flags & CLOSE_RANGE_UNSHARE != 0,
                cloexec: flags & CLOSE_RANGE_CLOEXEC != 0,
            },
        )
    }
}

/// Checks the arguments of `close_range`.
pub fn close_range_flags(first: i32, last: i32, flags: u32) -> (r: Result<CloseRange, VfsError>)
    ensures
        r == spec_close_range_flags(first, last, flags),
{
    if first < 0 || last < first {
        return Err(VfsError::InvalidInput);
    }
    if flags & !(CLOSE_RANGE_UNSHARE | CLOSE_RANGE_CLOEXEC) != 0 {
        return Err(VfsError::InvalidInput);
    }
    Ok(
        CloseRange {
            unshare: flags & CLOSE_RANGE_UNSHARE != 0,
            cloexec: flags & CLOSE_RANGE_CLOEXEC != 0,
        },
    )
}

/// The slot `fd` after a `close_range` over `first..=last`: outside the
/// range as before; inside it freed, or, where only marking is asked for,
/// marked if taken.
pub open spec fn spec_closed_slot(
    before: Option<FileDescriptor>,
    fd: int,
    first: int,
    last: int,
    cloexec: bool,
) -> Option<FileDescriptor> {
    if fd < first || fd > last {
        before
    } else if cloexec {
        match before {
            Some(entry) => Some(FileDescriptor { cloexec: true, ..entry }),
            None => None,
        }
    } else {
        None
    }
}

/// Closes the descriptors `first..=last`, or marks them to be closed on
/// execution. Numbers beyond the table are passed over. Giving the caller a
/// table of its own, where that is asked for, is left to the caller: the
/// returned request says so.
pub fn sys_close_range(table: &mut FdTable, first: i32, last: i32, flags: u32) -> (r: Result<
    CloseRange,
    VfsError,
>)
    ensures
        r == spec_close_range_flags(first, last, flags),
        r is Err ==> final(table)@ == old(table)@,
        r matches Ok(request) ==> {
            &&& final(table)@.len() == old(table)@.len()
            &&& forall|fd: int|
                0 <= fd < old(table)@.len() ==> #[trigger] final(table)@[fd] == spec_closed_slot(
                    old(table)@[fd],
                    fd,
                    first as int,
                    last as int,
                    request.cloexec,
                )
        },
{
    let request = match close_range_flags(first, last, flags) {
        Ok(request) => request,
        Err(e) => {
            return Err(e);
        },
    };
    let max_index = match table.max_id() {
        Some(max_index) => max_index,
        None => {
            return Ok(request);
        },
    };
    let start: usize = first as usize;
    let end: usize = if (last as usize) <= max_index {
        last as usize
    } else {
        max_index
    };
    let mut fd: usize = start;
    while fd <= end
        invariant
            start == first,
            start <= fd,
            fd <= end + 1 || fd == start,
            end <= last,
            end < old(table)@.len(),
            table@.len() == old(table)@.len(),
            forall|j: int| end < j <= last && j < old(table)@.len() ==> old(table)@[j] is None,
            forall|j: int|
                0 <= j < old(table)@.len() ==> #[trigger] table@[j] == spec_closed_slot(
                    old(table)@[j],
                    j,
                    first as int,
                    fd - 1,
                    request.cloexec,
                ),
        decreases end + 1 - fd,
    {
        if request.cloexec {
            let _ = table.set_cloexec(fd as i32, true);
        } else {
            let _ = table.remove(fd as i32);
        }
        fd = fd + 1;
    }
    Ok(request)
}

/// What giving the file behind `old_fd` a second descriptor comes to: the
/// lowest free descriptor, where the old one is in use and one is free.
pub open spec fn spec_dup_fd(table: Seq<Option<FileDescriptor>>, old_fd: i32, new_fd: int) -> bool {
    &&& spec_slot(table, old_fd as int) is Some
    &&& 0 <= new_fd < table.len()
    &&& table[new_fd] is None
    &&& forall|j: int| 0 <= j < new_fd ==> table[j] is Some
}

/// Gives the file behind `old_fd` a second descriptor, the lowest that is
/// free.
pub fn dup_fd(table: &mut FdTable, old_fd: i32, cloexec: bool) -> (r: Result<usize, VfsError>)
    ensures
        match r {
            Ok(new_fd) => {
                &&& spec_dup_fd(old(table)@, old_fd, new_fd as int)
                &&& final(table)@ == old(table)@.update(
                    new_fd as int,
                    Some(
                        FileDescriptor {
                            file: spec_slot(old(table)@, old_fd as int)->Some_0.file,
                            cloexec,
                        },
                    ),
                )
            },
            Err(e) => {
                &&& final(table)@ == old(table)@
                &&& forall|new_fd: int| !spec_dup_fd(old(table)@, old_fd, new_fd)
                &&& e == if spec_slot(old(table)@, old_fd as int) is None {
                    VfsError::BadFileDescriptor
                } else {
                    VfsError::TooManyOpenFiles
                }
            },
        },
{
    let entry = match table.get(old_fd) {
        Some(entry) => entry,
        None => {
            return Err(VfsError::BadFileDescriptor);
        },
    };
    table.add(FileDescriptor { file: entry.file, cloexec })
}

/// Gives the file behind `old_fd` the lowest free descriptor, which stays
/// open on execution.
pub fn sys_dup(table: &mut FdTable, old_fd: i32) -> (r: Result<usize, VfsError>)
    ensures
        match r {
            Ok(new_fd) => {
                &&& spec_dup_fd(old(table)@, old_fd, new_fd as int)
                &&& final(table)@ == old(table)@.update(
                    new_fd as int,
                    Some(
                        FileDescriptor {
                            file: spec_slot(old(table)@, old_fd as int)->Some_0.file,
                            cloexec: false,
                        },
                    ),
                )
            },
            Err(e) => {
                &&& final(table)@ == old(table)@
                &&& forall|new_fd: int| !spec_dup_fd(old(table)@, old_fd, new_fd)
                &&& e == if spec_slot(old(table)@, old_fd as int) is None {
                    VfsError::BadFileDescriptor
                } else {
                    VfsError::TooManyOpenFiles
                }
            },
        },
{
    dup_fd(table, old_fd, false)
}

/// What `dup3` comes to. The only flag is the one for closing on
/// execution; the two descriptors must differ; the old one must be in
/// use; the new one must name a slot.
pub open spec fn spec_dup3(
    table: Seq<Option<FileDescriptor>>,
    old_fd: i32,
    new_fd: i32,
    flags: i32,
) -> Result<isize, VfsError> {
    if (flags as u32) & !O_CLOEXEC != 0 {
        Err(VfsError::InvalidInput)
    } else if old_fd == new_fd {
        Err(VfsError::InvalidInput)
    } else if spec_slot(table, old_fd as int) is None {
        Err(VfsError::BadFileDescriptor)
    } else if !(0 <= new_fd < table.len()) {
        Err(VfsError::BadFileDescriptor)
    } else {
        Ok(new_fd as isize)
    }
}

/// Makes `new_fd` a second descriptor of the file behind `old_fd`, closing
/// whatever `new_fd` stood for.
pub fn sys_dup3(table: &mut FdTable, old_fd: i32, new_fd: i32, flags: i32) -> (r: Result<
    isize,
    VfsError,
>)
    ensures
        r == spec_dup3(old(table)@, old_fd, new_fd, flags),
        r is Ok ==> final(table)@ == old(table)@.update(
            new_fd as int,
            Some(
                FileDescriptor {
                    file: old(table)@[old_fd as int]->Some_0.file,
                    cloexec: (flags as u32) & O_CLOEXEC != 0,
                },
            ),
        ),
        r is Err ==> final(table)@ == old(table)@,
{
    let bits: u32 = #[verifier::truncate] (flags as u32);
    if bits & !O_CLOEXEC != 0 {
        return Err(VfsError::InvalidInput);
    }
    if old_fd == new_fd {
        return Err(VfsError::InvalidInput);
    }
    let entry = match table.get(old_fd) {
        Some(entry) => entry,
        None => {
            return Err(VfsError::BadFileDescriptor);
        },
    };
    let _ = table.remove(new_fd);
    match table.add_at(
        new_fd,
        FileDescriptor { file: entry.file, cloexec: bits & O_CLOEXEC != 0 },
    ) {
        Ok(()) => Ok(new_fd as isize),
        Err(e) => Err(e),
    }
}

/// `dup2`: like `dup3` without flags, but two equal descriptors are
/// accepted where they are in use.
pub fn sys_dup2(table: &mut FdTable, old_fd: i32, new_fd: i32) -> (r: Result<isize, VfsError>)
    ensures
        old_fd == new_fd ==> final(table)@ == old(table)@ && r == if spec_slot(
            old(table)@,
            new_fd as int,
        ) is Some {
            Ok::<isize, VfsError>(new_fd as isize)
        } else {
            Err::<isize, VfsError>(VfsError::BadFileDescriptor)
        },
        old_fd != new_fd ==> r == spec_dup3(old(table)@, old_fd, new_fd, 0),
        old_fd != new_fd && r is Ok ==> final(table)@ == old(table)@.update(
            new_fd as int,
            Some(
                FileDescriptor { file: old(table)@[old_fd as int]->Some_0.file, cloexec: false },
            ),
        ),
        r is Err ==> final(table)@ == old(table)@,
{
    if old_fd == new_fd {
        return match table.get(new_fd) {
            Some(_) => Ok(new_fd as isize),
            None => Err(VfsError::BadFileDescriptor),
        };
    }
    assert(0u32 & !O_CLOEXEC == 0 && 0u32 & O_CLOEXEC == 0) by (bit_vector);
    sys_dup3(table, old_fd, new_fd, 0)
}

/// What a `fcntl` call asks for.
#[derive(Clone, Copy, Debug, PartialEq, Eq, Structural)]
pub enum FcntlRequest {
    /// Duplicate the descriptor.
    DupFd { cloexec: bool },
    /// Setting a lock: accepted without effect.
    SetLock,
    /// Asking for a lock: the answer is "not locked".
    GetLock,
    /// Switch non-blocking mode on or off.
    SetStatus { nonblocking: bool },
    /// Report the status flags.
    GetStatus,
    /// Report whether the descriptor is closed on execution.
    GetFd,
    /// Set whether the descriptor is closed on execution.
    SetFd { cloexec: bool },
    /// Report the capacity of the pipe.
    GetPipeSize,
    /// Set the capacity of the pipe.
    SetPipeSize { size: usize },
    /// A command that is not known: accepted without effect.
    Unknown,
}

/// What the `fcntl` command `cmd` with argument `arg` asks for.
pub open spec fn spec_fcntl_request(cmd: i32, arg: usize) -> FcntlRequest {
    let cmd = cmd as u32;
    if cmd == F_DUPFD {
        FcntlRequest::DupFd { cloexec: false }
    } else if cmd == F_DUPFD_CLOEXEC {
        FcntlRequest::DupFd { cloexec: true }
    } else if cmd == F_SETLK || cmd == F_SETLKW || cmd == F_OFD_SETLK || cmd == F_OFD_SETLKW {
        FcntlRequest::SetLock
    } else if cmd == F_GETLK || cmd == F_OFD_GETLK {
        FcntlRequest::GetLock
    } else if cmd == F_SETFL {
        FcntlRequest::SetStatus { nonblocking: arg & (O_NONBLOCK as usize) > 0 }
    } else if cmd == F_GETFL {
        FcntlRequest::GetStatus
    } else if cmd == F_GETFD {
        FcntlRequest::GetFd
    } else if cmd == F_SETFD {
        FcntlRequest::SetFd { cloexec: arg & (FD_CLOEXEC as usize) != 0 }
    } else if cmd == F_GETPIPE_SZ {
        FcntlRequest::GetPipeSize
    } else if cmd == F_SETPIPE_SZ {
        FcntlRequest::SetPipeSize { size: arg }
    } else {
        FcntlRequest::Unknown
    }
}

/// Decodes a `fcntl` call.
pub fn fcntl_request(cmd: i32, arg: usize) -> (request: FcntlRequest)
    ensures
        request == spec_fcntl_request(cmd, arg),
{
    let cmd: u32 = #[verifier::truncate] (cmd as u32);
    if cmd == F_DUPFD {
        FcntlRequest::DupFd { cloexec: false }
    } else if cmd == F_DUPFD_CLOEXEC {
        FcntlRequest::DupFd { cloexec: true }
    } else if cmd == F_SETLK || cmd == F_SETLKW || cmd == F_OFD_SETLK || cmd == F_OFD_SETLKW {
        FcntlRequest::SetLock
    } else if cmd == F_GETLK || cmd == F_OFD_GETLK {
        FcntlRequest::GetLock
    } else if cmd == F_SETFL {
        FcntlRequest::SetStatus { nonblocking: arg & (O_NONBLOCK as usize) > 0 }
    } else if cmd == F_GETFL {
        FcntlRequest::GetStatus
    } else if cmd == F_GETFD {
        FcntlRequest::GetFd
    } else if cmd == F_SETFD {
        FcntlRequest::SetFd { cloexec: arg & (FD_CLOEXEC as usize) != 0 }
    } else if cmd == F_GETPIPE_SZ {
        FcntlRequest::GetPipeSize
    } else if cmd == F_SETPIPE_SZ {
        FcntlRequest::SetPipeSize { size: arg }
    } else {
        FcntlRequest::Unknown
    }
}

/// The status flags that `F_GETFL` reports for a file: the non-blocking
/// flag, and the access mode read from the owner's permission bits. A file
/// that its owner may not write reports read-only.
pub open spec fn spec_status_flags(nonblocking: bool, mode: u32) -> u32 {
    let perm = (mode as u16) & PERMISSION_MASK;
    let access = if perm & OWNER_WRITE != 0 {
        if perm & OWNER_READ != 0 {
            O_RDWR
        } else {
            O_WRONLY
        }
    } else {
        O_RDONLY
    };
    if nonblocking {
        O_NONBLOCK | access
    } else {
        access
    }
}

/// The status flags that `F_GETFL` reports.
pub fn status_flags(nonblocking: bool, mode: u32) -> (flags: u32)
    ensures
        flags == spec_status_flags(nonblocking, mode),
{
    let mut ret: u32 = 0;
    if nonblocking {
        ret = ret | O_NONBLOCK;
    }
    let perm: u16 = permission_bits(#[verifier::truncate] (mode as u16));
    if perm & OWNER_WRITE != 0 {
        if perm & OWNER_READ != 0 {
            ret = ret | O_RDWR;
        } else {
            ret = ret | O_WRONLY;
        }
    }
    proof {
        assert(0u32 | 0o4000u32 == 0o4000u32 | 0u32) by (bit_vector);
        assert((0u32 | 0o4000u32) | 2u32 == 0o4000u32 | 2u32) by (bit_vector);
        assert((0u32 | 0o4000u32) | 1u32 == 0o4000u32 | 1u32) by (bit_vector);
        assert(0u32 | 2u32 == 2u32) by (bit_vector);
        assert(0u32 | 1u32 == 1u32) by (bit_vector);
    }
    ret
}

/// How far a `fcntl` call has come once the descriptor table has had its
/// part.
#[derive(Clone, Copy, Debug, PartialEq, Eq, Structural)]
pub enum FcntlOutcome {
    /// The call is complete and returns this value.
    Done(usize),
    /// The request concerns the file behind the descriptor and is still to
    /// be carried out there.
    OnFile(FcntlRequest),
}

/// Carries out the part of `fcntl` that works on the descriptor table:
/// duplication and the close-on-execution flag. Locks and unknown commands
/// are accepted without effect. Every other request is handed back to be
/// carried out on the file.
pub fn sys_fcntl(table: &mut FdTable, fd: i32, cmd: i32, arg: usize) -> (r: Result<
    FcntlOutcome,
    VfsError,
>)
    ensures
        match spec_fcntl_request(cmd, arg) {
            FcntlRequest::DupFd { cloexec } => match r {
                Ok(outcome) => {
                    &&& outcome matches FcntlOutcome::Done(new_fd)
                    &&& spec_dup_fd(old(table)@, fd, new_fd as int)
                    &&& final(table)@ == old(table)@.update(
                        new_fd as int,
                        Some(
                            FileDescriptor {
                                file: spec_slot(old(table)@, fd as int)->Some_0.file,
                                cloexec,
                            },
                        ),
                    )
                },
                Err(e) => {
                    &&& final(table)@ == old(table)@
                    &&& forall|new_fd: int| !spec_dup_fd(old(table)@, fd, new_fd)
                    &&& e == if spec_slot(old(table)@, fd as int) is None {
                        VfsError::BadFileDescriptor
                    } else {
                        VfsError::TooManyOpenFiles
                    }
                },
            },
            FcntlRequest::GetFd => {
                &&& final(table)@ == old(table)@
                &&& r == match spec_slot(old(table)@, fd as int) {
                    Some(entry) => Ok::<FcntlOutcome, VfsError>(
                        FcntlOutcome::Done(
                            if entry.cloexec {
                                1usize
                            } else {
                                0usize
                            },
                        ),
                    ),
                    None => Err::<FcntlOutcome, VfsError>(VfsError::BadFileDescriptor),
                }
            },
            FcntlRequest::SetFd { cloexec } => match spec_slot(old(table)@, fd as int) {
                Some(entry) => r == Ok::<FcntlOutcome, VfsError>(FcntlOutcome::Done(0usize))
                    && final(table)@ == old(table)@.update(
                    fd as int,
                    Some(FileDescriptor { cloexec, ..entry }),
                ),
                None => r == Err::<FcntlOutcome, VfsError>(VfsError::BadFileDescriptor) && final(table)@ == old(table)@,
            },
            FcntlRequest::SetLock | FcntlRequest::Unknown => r == Ok::<FcntlOutcome, VfsError>(
                FcntlOutcome::Done(0usize),
            ) && final(table)@ == old(table)@,
            other => r == Ok::<FcntlOutcome, VfsError>(FcntlOutcome::OnFile(other)) && final(table)@ == old(table)@,
        },
{
    match fcntl_request(cmd, arg) {
        FcntlRequest::DupFd { cloexec } => match dup_fd(table, fd, cloexec) {
            Ok(new_fd) => Ok(FcntlOutcome::Done(new_fd)),
            Err(e) => Err(e),
        },
        FcntlRequest::GetFd => match table.get(fd) {
            Some(entry) => Ok(FcntlOutcome::Done(if entry.cloexec { 1 } else { 0 })),
            None => Err(VfsError::BadFileDescriptor),
        },
        FcntlRequest::SetFd { cloexec } => {
            if table.set_cloexec(fd, cloexec) {
                Ok(FcntlOutcome::Done(0))
            } else {
                Err(VfsError::BadFileDescriptor)
            }
        },
        FcntlRequest::SetLock => Ok(FcntlOutcome::Done(0)),
        FcntlRequest::Unknown => Ok(FcntlOutcome::Done(0)),
        other => Ok(FcntlOutcome::OnFile(other)),
    }
}

/// `flock` is accepted without effect.
pub fn sys_flock(fd: i32, operation: i32) -> (r: Result<isize, VfsError>)
    ensures
        r == Ok::<isize, VfsError>(0isize),
{
    Ok(0)
}

} // verus!
