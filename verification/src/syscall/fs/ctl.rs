//! Control of files and directories: the checks and the small computations
//! that the calls make before and after they touch the file system.

use crate::syscall::fs::fd_ops::apply_umask;
use crate::time::{TimeValue, TimeValueLike, Timespec};
use crate::vfs::error::VfsError;
use crate::vfs::node::{
    device_id, permission_bits, spec_device_id, split_device, NodeType, GROUP_EXEC,
    PERMISSION_MASK, SET_GID, SET_UID,
};
use vstd::prelude::*;

verus! {

/// The bits of a file mode that hold the node type.
pub const S_IFMT: u32 = 0o170000;

pub const S_IFIFO: u32 = 0o010000;

pub const S_IFCHR: u32 = 0o020000;

pub const S_IFBLK: u32 = 0o060000;

pub const S_IFREG: u32 = 0o100000;

pub const S_IFSOCK: u32 = 0o140000;

/// The directory descriptor that stands for the current directory.
pub const AT_FDCWD: i32 = -100;

pub const AT_SYMLINK_NOFOLLOW: u32 = 0x100;

pub const AT_REMOVEDIR: u32 = 0x200;

pub const AT_EMPTY_PATH: u32 = 0x1000;

/// A nanosecond field that asks for the current time.
pub const UTIME_NOW: i64 = 0x3fff_ffff;

/// A nanosecond field that asks to leave the time as it is.
pub const UTIME_OMIT: i64 = 0x3fff_fffe;

/// The ioctl that switches non-blocking mode.
pub const FIONBIO: u32 = 0x5421;

/// The ioctl that asks for the window size of a terminal.
pub const TIOCGWINSZ: u32 = 0x5413;

/// What `FIONBIO` asks for: the byte that the argument points to must be
/// zero or one, and says whether non-blocking mode is switched on.
pub fn fionbio_value(val: u8) -> (r: Result<bool, VfsError>)
    ensures
        r == if val == 0 {
            Ok::<bool, VfsError>(false)
        } else if val == 1 {
            Ok::<bool, VfsError>(true)
        } else {
            Err::<bool, VfsError>(VfsError::InvalidInput)
        },
{
    if val != 0 && val != 1 {
        return Err(VfsError::InvalidInput);
    }
    Ok(val != 0)
}

/// Whether an ioctl that a file did not know is worth a warning: the
/// window-size query, which programs send to every file, is not.
pub fn warn_unsupported_ioctl(cmd: u32) -> (warn: bool)
    ensures
        warn == (cmd != TIOCGWINSZ),
{
    cmd != TIOCGWINSZ
}

/// A new root must be a directory.
pub fn sys_chroot(node_type: NodeType) -> (r: Result<isize, VfsError>)
    ensures
        r == if node_type == NodeType::Directory {
            Ok::<isize, VfsError>(0isize)
        } else {
            Err::<isize, VfsError>(VfsError::NotADirectory)
        },
{
    if node_type != NodeType::Directory {
        return Err(VfsError::NotADirectory);
    }
    Ok(0)
}

/// The permission bits of a new directory: the mode under the creation
/// mask, without the bits that no permission uses.
pub fn sys_mkdirat(mode: u32, umask: u32) -> (perm: u16)
    ensures
        perm == ((mode & !umask) as u16) & PERMISSION_MASK,
{
    let mode: u32 = apply_umask(mode, umask);
    permission_bits(#[verifier::truncate] (mode as u16))
}

/// What `mknod` is to create.
#[derive(Clone, Copy, Debug, PartialEq, Eq, Structural)]
pub struct Mknod {
    pub node_type: NodeType,
    pub permission: u16,
    /// The device number to set on the node, for a device node.
    pub device: Option<u64>,
}

/// The node type that the type bits of a `mknod` mode ask for. Only
/// regular files, devices, pipes and sockets can be made this way.
pub open spec fn spec_mknod_type(mode: u32) -> Result<NodeType, VfsError> {
    let ftype = mode & S_IFMT;
    if ftype == S_IFREG {
        Ok(NodeType::RegularFile)
    } else if ftype == S_IFCHR {
        Ok(NodeType::CharacterDevice)
    } else if ftype == S_IFBLK {
        Ok(NodeType::BlockDevice)
    } else if ftype == S_IFIFO {
        Ok(NodeType::Fifo)
    } else if ftype == S_IFSOCK {
        Ok(NodeType::Socket)
    } else {
        Err(VfsError::InvalidInput)
    }
}

/// What a `mknod` with `mode` and `dev` is to create under the creation
/// mask `umask`. A device node gets the device number whose major part is
/// `dev` without its low eight bits, and whose minor part is those bits.
pub open spec fn spec_mknod(mode: u32, dev: u64, umask: u32) -> Result<Mknod, VfsError> {
    match spec_mknod_type(mode) {
        Err(e) => Err(e),
        Ok(node_type) => Ok(
            Mknod {
                node_type,
                permission: (((mode & !S_IFMT) & !umask) as u16) & PERMISSION_MASK,
                device: if node_type == NodeType::CharacterDevice || node_type
                    == NodeType::BlockDevice {
                    Some(spec_device_id((dev >> 8) as u32, (dev & 0xff) as u32))
                } else {
                    None
                },
            },
        ),
    }
}

/// Decides what a `mknod` call is to create.
pub fn sys_mknodat(mode: u32, dev: u64, umask: u32) -> (r: Result<Mknod, VfsError>)
    ensures
        r == spec_mknod(mode, dev, umask),
{
    let ftype: u32 = mode & S_IFMT;
    let perm: u32 = apply_umask(mode & !S_IFMT, umask);
    let node_type = if ftype == S_IFREG {
        NodeType::RegularFile
    } else if ftype == S_IFCHR {
        NodeType::CharacterDevice
    } else if ftype == S_IFBLK {
        NodeType::BlockDevice
    } else if ftype == S_IFIFO {
        NodeType::Fifo
    } else if ftype == S_IFSOCK {
        NodeType::Socket
    } else {
        return Err(VfsError::InvalidInput);
    };
    let permission: u16 = permission_bits(#[verifier::truncate] (perm as u16));
    let device = match node_type {
        NodeType::CharacterDevice | NodeType::BlockDevice => {
            let (major, minor) = split_device(dev);
            Some(device_id(major, minor))
        },
        _ => None,
    };
    Ok(Mknod { node_type, permission, device })
}

/// A hard link to a directory is not permitted.
pub fn sys_linkat(old_is_dir: bool) -> (r: Result<isize, VfsError>)
    ensures
        r == if old_is_dir {
            Err::<isize, VfsError>(VfsError::OperationNotPermitted)
        } else {
            Ok::<isize, VfsError>(0isize)
        },
{
    if old_is_dir {
        return Err(VfsError::OperationNotPermitted);
    }
    Ok(0)
}

/// What `unlinkat` removes.
#[derive(Clone, Copy, Debug, PartialEq, Eq, Structural)]
pub enum Unlink {
    File,
    Directory,
}

/// `unlinkat` removes a directory where the flags are exactly the one flag
/// that asks for it, and a file otherwise.
pub fn sys_unlinkat(flags: usize) -> (what: Unlink)
    ensures
        what == if flags == AT_REMOVEDIR as usize {
            Unlink::Directory
        } else {
            Unlink::File
        },
{
    if flags == AT_REMOVEDIR as usize {
        Unlink::Directory
    } else {
        Unlink::File
    }
}

/// What `getcwd` hands to user space for the current directory `cwd` and a
/// buffer of `size` bytes: the path with a zero byte behind it. A negative
/// size is a bad address; without a buffer nothing is handed over; a path
/// with a zero byte in it is invalid; a path that does not fit with its
/// terminator is out of range.
pub open spec fn spec_getcwd(cwd: Seq<u8>, size: isize, buf_is_null: bool) -> Result<
    Option<Seq<u8>>,
    VfsError,
> {
    if size < 0 {
        Err(VfsError::BadAddress)
    } else if buf_is_null {
        Ok(None)
    } else if cwd.contains(0u8) {
        Err(VfsError::InvalidInput)
    } else if cwd.len() + 1 <= size {
        Ok(Some(cwd.push(0u8)))
    } else {
        Err(VfsError::OutOfRange)
    }
}

/// Whether a `getcwd` reply is the one that the arguments call for.
pub open spec fn spec_getcwd_matches(
    r: Result<Option<Vec<u8>>, VfsError>,
    expected: Result<Option<Seq<u8>>, VfsError>,
) -> bool {
    match (r, expected) {
        (Ok(Some(bytes)), Ok(Some(path))) => bytes@ == path,
        (Ok(None), Ok(None)) => true,
        (Err(e), Err(f)) => e == f,
        _ => false,
    }
}

/// Prepares the reply of `getcwd`.
pub fn sys_getcwd(cwd: &[u8], size: isize, buf_is_null: bool) -> (r: Result<
    Option<Vec<u8>>,
    VfsError,
>)
    ensures
        spec_getcwd_matches(r, spec_getcwd(cwd@, size, buf_is_null)),
{
    if size < 0 {
        return Err(VfsError::BadAddress);
    }
    if buf_is_null {
        return Ok(None);
    }
    let mut out: Vec<u8> = Vec::new();
    let mut i: usize = 0;
    while i < cwd.len()
        invariant
            i <= cwd@.len(),
            size >= 0,
            !buf_is_null,
            out@ == cwd@.take(i as int),
            forall|j: int| 0 <= j < i ==> cwd@[j] != 0,
        decreases cwd@.len() - i,
    {
        if cwd[i] == 0 {
            assert(cwd@[i as int] == 0u8);
            assert(cwd@.contains(0u8));
            return Err(VfsError::InvalidInput);
        }
        out.push(cwd[i]);
        i = i + 1;
        assert(out@ =~= cwd@.take(i as int));
    }
    assert(cwd@.take(i as int) =~= cwd@);
    assert(!cwd@.contains(0u8));
    if cwd.len() < size as usize {
        out.push(0);
        Ok(Some(out))
    } else {
        Err(VfsError::OutOfRange)
    }
}

/// The owner that `chown` sets: an identity of minus one leaves that
/// identity as it is.
pub fn chown_owner(uid: i32, gid: i32, old_uid: u32, old_gid: u32) -> (owner: (u32, u32))
    ensures
        owner.0 == if uid == -1 {
            old_uid
        } else {
            uid as u32
        },
        owner.1 == if gid == -1 {
            old_gid
        } else {
            gid as u32
        },
{
    let new_uid: u32 = if uid == -1 {
        old_uid
    } else {
        #[verifier::truncate] (uid as u32)
    };
    let new_gid: u32 = if gid == -1 {
        old_gid
    } else {
        #[verifier::truncate] (gid as u32)
    };
    (new_uid, new_gid)
}

/// The mode that a file has after `chown`: the set-user-ID bit is always
/// cleared, and the set-group-ID bit is cleared where the group may
/// execute the file.
pub open spec fn spec_chown_mode(mode: u16) -> u16 {
    if mode & GROUP_EXEC != 0 {
        mode & !SET_UID & !SET_GID
    } else {
        mode & !SET_UID
    }
}

/// The mode that a file has after `chown`.
pub fn chown_mode(mode: u16) -> (cleared: u16)
    ensures
        cleared == spec_chown_mode(mode),
{
    let cleared: u16 = mode & !SET_UID;
    assert((mode & !0o4000u16) & 0o10u16 == mode & 0o10u16) by (bit_vector);
    if cleared & GROUP_EXEC != 0 {
        cleared & !SET_GID
    } else {
        cleared
    }
}

/// The permission bits that `chmod` sets.
pub fn sys_fchmodat(mode: u32) -> (perm: u16)
    ensures
        perm == (mode as u16) & PERMISSION_MASK,
{
    permission_bits(#[verifier::truncate] (mode as u16))
}

/// What one of the two times of `utimensat` asks for: nothing where the
/// nanosecond field says to omit the time, the current time where it says
/// so, and otherwise the time given, which must be valid.
pub open spec fn spec_utime_to_duration(time: Timespec, now: TimeValue) -> Option<
    Result<TimeValue, crate::errno::SysError>,
> {
    if time.tv_nsec == UTIME_OMIT {
        None
    } else if time.tv_nsec == UTIME_NOW {
        Some(Ok(now))
    } else {
        Some(time.spec_try_into_time_value())
    }
}

/// Reads what one of the two times of `utimensat` asks for.
pub fn utime_to_duration(time: Timespec, now: TimeValue) -> (r: Option<
    Result<TimeValue, crate::errno::SysError>,
>)
    ensures
        r == spec_utime_to_duration(time, now),
{
    if time.tv_nsec == UTIME_OMIT {
        None
    } else if time.tv_nsec == UTIME_NOW {
        Some(Ok(now))
    } else {
        Some(time.try_into_time_value())
    }
}

/// The times that `utimensat` sets.
#[derive(Clone, Copy, Debug, PartialEq, Eq, Structural)]
pub struct UpdateTimes {
    pub atime: Option<TimeValue>,
    pub mtime: Option<TimeValue>,
    /// The flags for resolving the file, with the empty-path flag added
    /// where no path was given.
    pub flags: u32,
}

/// What `utimensat` comes to for the times at `times`, read at the moment
/// `now`: without times both are set to `now`; with both omitted nothing is
/// to be done; an invalid time is an invalid argument.
pub open spec fn spec_utimensat(
    times: Option<(Timespec, Timespec)>,
    now: TimeValue,
    path_is_null: bool,
    flags: u32,
) -> Result<Option<UpdateTimes>, crate::errno::SysError> {
    let flags = if path_is_null {
        flags | AT_EMPTY_PATH
    } else {
        flags
    };
    match times {
        None => Ok(Some(UpdateTimes { atime: Some(now), mtime: Some(now), flags })),
        Some((atime, mtime)) => match spec_utime_to_duration(atime, now) {
            Some(Err(e)) => Err(e),
            first => match spec_utime_to_duration(mtime, now) {
                Some(Err(e)) => Err(e),
                second => {
                    let atime = match first {
                        Some(Ok(tv)) => Some(tv),
                        _ => None,
                    };
                    let mtime = match second {
                        Some(Ok(tv)) => Some(tv),
                        _ => None,
                    };
                    if atime is None && mtime is None {
                        Ok(None)
                    } else {
                        Ok(Some(UpdateTimes { atime, mtime, flags }))
                    }
                },
            },
        },
    }
}

/// Decides which times `utimensat` sets.
pub fn sys_utimensat(
    times: Option<(Timespec, Timespec)>,
    now: TimeValue,
    path_is_null: bool,
    flags: u32,
) -> (r: Result<Option<UpdateTimes>, crate::errno::SysError>)
    ensures
        r == spec_utimensat(times, now, path_is_null, flags),
{
    let flags: u32 = if path_is_null {
        flags | AT_EMPTY_PATH
    } else {
        flags
    };
    let (atime, mtime) = match times {
        None => (Some(now), Some(now)),
        Some((atime, mtime)) => {
            let first = match utime_to_duration(atime, now) {
                Some(Err(e)) => {
                    return Err(e);
                },
                Some(Ok(tv)) => Some(tv),
                None => None,
            };
            let second = match utime_to_duration(mtime, now) {
                Some(Err(e)) => {
                    return Err(e);
                },
                Some(Ok(tv)) => Some(tv),
                None => None,
            };
            (first, second)
        },
    };
    if atime.is_none() && mtime.is_none() {
        return Ok(None);
    }
    Ok(Some(UpdateTimes { atime, mtime, flags }))
}

/// The two times that `utimes` sets from a pair of second/microsecond
/// values; without values both are `now`.
pub fn sys_utimes(times: Option<(crate::time::Timeval, crate::time::Timeval)>, now: TimeValue) -> (r:
    Result<(TimeValue, TimeValue), crate::errno::SysError>)
    ensures
        r == match times {
            None => Ok::<(TimeValue, TimeValue), crate::errno::SysError>((now, now)),
            Some((atime, mtime)) => match atime.spec_try_into_time_value() {
                Err(e) => Err::<(TimeValue, TimeValue), crate::errno::SysError>(e),
                Ok(first) => match mtime.spec_try_into_time_value() {
                    Err(e) => Err::<(TimeValue, TimeValue), crate::errno::SysError>(e),
                    Ok(second) => Ok::<(TimeValue, TimeValue), crate::errno::SysError>(
                        (first, second),
                    ),
                },
            },
        },
{
    match times {
        None => Ok((now, now)),
        Some((atime, mtime)) => {
            let first = match atime.try_into_time_value() {
                Ok(tv) => tv,
                Err(e) => {
                    return Err(e);
                },
            };
            let second = match mtime.try_into_time_value() {
                Ok(tv) => tv,
                Err(e) => {
                    return Err(e);
                },
            };
            Ok((first, second))
        },
    }
}

/// The two times that `utime` sets from a pair of whole seconds; without
/// values both are `now`. Seconds are taken as unsigned.
pub fn sys_utime(times: Option<(i64, i64)>, now: TimeValue) -> (r: (TimeValue, TimeValue))
    ensures
        r == match times {
            None => (now, now),
            Some((actime, modtime)) => (
                TimeValue { secs: actime as u64, nanos: 0 },
                TimeValue { secs: modtime as u64, nanos: 0 },
            ),
        },
{
    match times {
        None => (now, now),
        Some((actime, modtime)) => (
            TimeValue { secs: #[verifier::truncate] (actime as u64), nanos: 0 },
            TimeValue { secs: #[verifier::truncate] (modtime as u64), nanos: 0 },
        ),
    }
}

/// `sync` and `syncfs` have nothing to write back.
pub fn sys_sync() -> (r: Result<isize, VfsError>)
    ensures
        r == Ok::<isize, VfsError>(0isize),
{
    Ok(0)
}

} // verus!
