//! Node types, permission bits and device numbers as the file-system layer
//! defines them.

use axfs_ng_vfs::{DeviceId, NodePermission, NodeType as VfsNodeType};
use vstd::prelude::*;

verus! {

/// The kinds of file-system nodes.
#[derive(Clone, Copy, Debug, PartialEq, Eq, Structural)]
pub enum NodeType {
    Unknown,
    Fifo,
    CharacterDevice,
    Directory,
    BlockDevice,
    RegularFile,
    Symlink,
    Socket,
}

impl NodeType {
    /// The number that stands for the node type in directory entries and in
    /// the top bits of a file mode.
    pub open spec fn spec_code(self) -> u8 {
        match self {
            NodeType::Unknown => 0,
            NodeType::Fifo => 0o1,
            NodeType::CharacterDevice => 0o2,
            NodeType::Directory => 0o4,
            NodeType::BlockDevice => 0o6,
            NodeType::RegularFile => 0o10,
            NodeType::Symlink => 0o12,
            NodeType::Socket => 0o14,
        }
    }

    /// The number that stands for the node type.
    pub fn code(self) -> (code: u8)
        ensures
            code == self.spec_code(),
    {
        node_type_code(self)
    }
}

/// Trusted: the number that `axfs_ng_vfs::NodeType` assigns to each of its
/// variants, read off by casting the variant of the same name.
#[verifier::external_body]
fn node_type_code(ty: NodeType) -> (code: u8)
    ensures
        code == ty.spec_code(),
{
    let there = match ty {
        NodeType::Unknown => VfsNodeType::Unknown,
        NodeType::Fifo => VfsNodeType::Fifo,
        NodeType::CharacterDevice => VfsNodeType::CharacterDevice,
        NodeType::Directory => VfsNodeType::Directory,
        NodeType::BlockDevice => VfsNodeType::BlockDevice,
        NodeType::RegularFile => VfsNodeType::RegularFile,
        NodeType::Symlink => VfsNodeType::Symlink,
        NodeType::Socket => VfsNodeType::Socket,
    };
    there as u8
}

/// Set user ID on execution.
pub const SET_UID: u16 = 0o4000;

/// Set group ID on execution.
pub const SET_GID: u16 = 0o2000;

/// Owner has read permission.
pub const OWNER_READ: u16 = 0o400;

/// Owner has write permission.
pub const OWNER_WRITE: u16 = 0o200;

/// Group has execute permission.
pub const GROUP_EXEC: u16 = 0o10;

/// Every bit that a permission mode can hold.
pub const PERMISSION_MASK: u16 = 0o7777;

/// Trusted: `NodePermission::from_bits_truncate` followed by `bits`. The
/// permission type defines the twelve low bits, so what comes back is the
/// mode with every other bit cleared.
#[verifier::external_body]
fn truncate_permission(mode: u16) -> (bits: u16)
    ensures
        bits == mode & PERMISSION_MASK,
{
    NodePermission::from_bits_truncate(mode).bits()
}

/// The permission bits of `mode`; bits that no permission uses are dropped.
pub fn permission_bits(mode: u16) -> (bits: u16)
    ensures
        bits == mode & PERMISSION_MASK,
        bits <= PERMISSION_MASK,
{
    let bits = truncate_permission(mode);
    assert(mode & 0o7777u16 <= 0o7777u16) by (bit_vector);
    bits
}

/// The device number made of `major` and `minor`: the low twelve bits of
/// the major number sit at bit 8 and its other bits at bit 32 and above;
/// the low eight bits of the minor number sit at bit 0 and its other bits
/// at bit 20 and above.
pub open spec fn spec_device_id(major: u32, minor: u32) -> u64 {
    ((major as u64) & 0xffff_f000) << 32 | ((major as u64) & 0x0000_0fff) << 8 | ((minor as u64)
        & 0xffff_ff00) << 12 | ((minor as u64) & 0x0000_00ff)
}

/// Trusted: `axfs_ng_vfs::DeviceId::new`, whose number is read from the
/// field of the result. The contract repeats the layout that the function
/// fills in.
#[verifier::external_body]
fn make_device_id(major: u32, minor: u32) -> (id: u64)
    ensures
        id == spec_device_id(major, minor),
{
    DeviceId::new(major, minor).0
}

/// The device number made of `major` and `minor`.
pub fn device_id(major: u32, minor: u32) -> (id: u64)
    ensures
        id == spec_device_id(major, minor),
{
    make_device_id(major, minor)
}

/// Splits the device number passed to `mknod` the simple way: the low
/// eight bits are the minor number, the 32 bits above them the major.
pub fn split_device(dev: u64) -> (parts: (u32, u32))
    ensures
        parts.0 == (dev >> 8) as u32,
        parts.1 == (dev & 0xff) as u32,
{
    let major: u32 = #[verifier::truncate] ((dev >> 8) as u32);
    let minor: u32 = #[verifier::truncate] ((dev & 0xff) as u32);
    (major, minor)
}

} // verus!
