//! The device node `/dev/dri/card1`, through which the neural processing
//! unit is driven.

use crate::vfs::dev::rknpu::{ioctl_request, spec_ioctl_request, NpuRequest, NODE_NON_CACHEABLE};
use crate::vfs::error::VfsError;
use vstd::prelude::*;

verus! {

/// The device node `/dev/dri/card1`.
pub struct Card1;

impl Card1 {
    /// The device node.
    pub fn new() -> Card1 {
        Card1
    }

    /// The device is not read directly.
    pub fn read_at(&self, buf_len: usize, offset: u64) -> (r: Result<usize, VfsError>)
        ensures
            r == Err::<usize, VfsError>(VfsError::InvalidInput),
    {
        Err(VfsError::InvalidInput)
    }

    /// The device is not written directly.
    pub fn write_at(&self, buf_len: usize, offset: u64) -> (r: Result<usize, VfsError>)
        ensures
            r == Err::<usize, VfsError>(VfsError::InvalidInput),
    {
        Err(VfsError::InvalidInput)
    }

    /// What an ioctl on the device has to carry out.
    pub fn ioctl(&self, cmd: u32, arg: usize) -> (r: Result<NpuRequest, VfsError>)
        ensures
            r == spec_ioctl_request(cmd, arg),
    {
        ioctl_request(cmd, arg)
    }

    /// The device must not be cached.
    pub fn flags(&self) -> (flags: u32)
        ensures
            flags == 2,
    {
        NODE_NON_CACHEABLE
    }
}

impl Default for Card1 {
    fn default() -> Card1 {
        Card1::new()
    }
}

} // verus!
