//! Files and directories behind descriptors: how a path argument is
//! resolved, and the status record that `stat` reports.

use crate::syscall::fs::ctl::{AT_EMPTY_PATH, AT_FDCWD, AT_SYMLINK_NOFOLLOW};
use crate::time::TimeValue;
use crate::vfs::error::VfsError;
use crate::vfs::node::NodeType;
use vstd::prelude::*;

verus! {

/// Where a path that is relative starts from.
#[derive(Clone, Copy, Debug, PartialEq, Eq, Structural)]
pub enum PathBase {
    /// The current directory of the process.
    CurrentDir,
    /// The directory behind this descriptor.
    Directory(i32),
}

/// Tells where a path given next to the directory descriptor `dirfd`
/// starts from.
pub fn with_fs(dirfd: i32) -> (base: PathBase)
    ensures
        base == if dirfd == AT_FDCWD {
            PathBase::CurrentDir
        } else {
            PathBase::Directory(dirfd)
        },
{
    if dirfd == AT_FDCWD {
        PathBase::CurrentDir
    } else {
        PathBase::Directory(dirfd)
    }
}

/// How the file that a call names is found.
#[derive(Clone, Copy, Debug, PartialEq, Eq, Structural)]
pub enum ResolveAt {
    /// It is the file behind the directory descriptor itself.
    Descriptor,
    /// It is found by its path, following a final symbolic link or not.
    Path { follow: bool },
}

/// How the file named by `path` and `flags` is found. Without a path, or
/// with an empty one, the descriptor itself is meant, which the flags must
/// allow; otherwise the file is not found.
pub open spec fn spec_resolve_at(path: Option<Seq<char>>, flags: u32) -> Result<
    ResolveAt,
    VfsError,
> {
    if path is None || path->Some_0.len() == 0 {
        if flags & AT_EMPTY_PATH == 0 {
            Err(VfsError::NotFound)
        } else {
            Ok(ResolveAt::Descriptor)
        }
    } else {
        Ok(ResolveAt::Path { follow: flags & AT_SYMLINK_NOFOLLOW == 0 })
    }
}

/// Decides how the file named by `path` and `flags` is found.
pub fn resolve_at(path: Option<&str>, flags: u32) -> (r: Result<ResolveAt, VfsError>)
    ensures
        r == spec_resolve_at(
            match path {
                Some(p) => Some(p@),
                None => None,
            },
            flags,
        ),
{
    let empty = match path {
        None => true,
        Some(p) => p.is_empty(),
    };
    if empty {
        if flags & AT_EMPTY_PATH == 0 {
            return Err(VfsError::NotFound);
        }
        Ok(ResolveAt::Descriptor)
    } else {
        Ok(ResolveAt::Path { follow: flags & AT_SYMLINK_NOFOLLOW == 0 })
    }
}

/// What is behind a descriptor that a call wants to use as a file.
#[derive(Clone, Copy, Debug, PartialEq, Eq, Structural)]
pub enum FileKind {
    File,
    Directory,
    Other,
}

/// A descriptor used as a file must be one: a directory is reported as
/// such, anything else as a broken pipe.
pub fn file_from_fd(kind: FileKind) -> (r: Result<(), VfsError>)
    ensures
        r is Ok <==> kind == FileKind::File,
        kind == FileKind::Directory ==> r == Err::<(), VfsError>(VfsError::IsADirectory),
        kind == FileKind::Other ==> r == Err::<(), VfsError>(VfsError::BrokenPipe),
{
    match kind {
        FileKind::File => Ok(()),
        FileKind::Directory => Err(VfsError::IsADirectory),
        FileKind::Other => Err(VfsError::BrokenPipe),
    }
}

/// A descriptor used as a directory must be one.
pub fn directory_from_fd(kind: FileKind) -> (r: Result<(), VfsError>)
    ensures
        r is Ok <==> kind == FileKind::Directory,
        r is Err ==> r == Err::<(), VfsError>(VfsError::NotADirectory),
{
    match kind {
        FileKind::Directory => Ok(()),
        _ => Err(VfsError::NotADirectory),
    }
}

/// What the file system knows of a node.
#[derive(Clone, Copy, Debug, PartialEq, Eq, Structural)]
pub struct Metadata {
    pub device: u64,
    pub inode: u64,
    pub nlink: u64,
    pub mode: u16,
    pub node_type: NodeType,
    pub uid: u32,
    pub gid: u32,
    pub size: u64,
    pub block_size: u64,
    pub blocks: u64,
    pub rdev: u64,
    pub atime: TimeValue,
    pub mtime: TimeValue,
    pub ctime: TimeValue,
}

/// The status record of a file as `stat` reports it.
#[derive(Clone, Copy, Debug, PartialEq, Eq, Structural)]
pub struct Kstat {
    pub dev: u64,
    pub ino: u64,
    pub mode: u32,
    pub nlink: u32,
    pub uid: u32,
    pub gid: u32,
    pub size: u64,
    pub blksize: u32,
    pub blocks: u64,
    pub rdev: u64,
    pub atime: TimeValue,
    pub mtime: TimeValue,
    pub ctime: TimeValue,
}

/// The mode word of a status record: the number of the node type in the
/// bits from 12 on, the permission bits below.
pub open spec fn spec_stat_mode(node_type: NodeType, mode: u16) -> u32 {
    ((node_type.spec_code() as u32) << 12) | (mode as u32)
}

/// The status record for `metadata`. Link count and block size are cut to
/// 32 bits.
pub open spec fn spec_metadata_to_kstat(metadata: Metadata) -> Kstat {
    Kstat {
        dev: metadata.device,
        ino: metadata.inode,
        mode: spec_stat_mode(metadata.node_type, metadata.mode),
        nlink: metadata.nlink as u32,
        uid: metadata.uid,
        gid: metadata.gid,
        size: metadata.size,
        blksize: metadata.block_size as u32,
        blocks: metadata.blocks,
        rdev: metadata.rdev,
        atime: metadata.atime,
        mtime: metadata.mtime,
        ctime: metadata.ctime,
    }
}

/// Makes the status record for `metadata`.
pub fn metadata_to_kstat(metadata: &Metadata) -> (kstat: Kstat)
    ensures
        kstat == spec_metadata_to_kstat(*metadata),
{
    let ty: u8 = metadata.node_type.code();
    let perm: u32 = metadata.mode as u32;
    let mode: u32 = ((ty as u32) << 12) | perm;
    Kstat {
        dev: metadata.device,
        ino: metadata.inode,
        mode,
        nlink: #[verifier::truncate] (metadata.nlink as u32),
        uid: metadata.uid,
        gid: metadata.gid,
        size: metadata.size,
        blksize: #[verifier::truncate] (metadata.block_size as u32),
        blocks: metadata.blocks,
        rdev: metadata.rdev,
        atime: metadata.atime,
        mtime: metadata.mtime,
        ctime: metadata.ctime,
    }
}

} // verus!
