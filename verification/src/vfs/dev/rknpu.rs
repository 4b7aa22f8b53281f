//! The neural-processing-unit device node: command decoding and the
//! decisions of its operations.

use crate::vfs::error::VfsError;
use vstd::prelude::*;

verus! {

const IOC_NRSHIFT: u32 = 0;

const IOC_NRMASK: u32 = 0xff;

/// Node flag: the file behaves like a stream.
pub const NODE_STREAM: u32 = 0x0001;

/// Node flag: the file must not be cached.
pub const NODE_NON_CACHEABLE: u32 = 0x0002;

/// The command number carried in the low eight bits of an ioctl command.
pub fn ioc_nr(cmd: u32) -> (nr: u32)
    ensures
        nr == cmd % 256,
{
    assert((cmd >> 0u32) & 255u32 == cmd % 256u32) by (bit_vector);
    (cmd >> IOC_NRSHIFT) & IOC_NRMASK
}

/// The commands of the device.
#[derive(Debug, Clone, Copy, PartialEq, Eq, Structural)]
pub enum RknpuCmd {
    Action,
    Submit,
    MemCreate,
    MemMap,
    MemDestroy,
    MemSync,
}

impl RknpuCmd {
    /// The number that stands for the command.
    pub open spec fn spec_number(self) -> int {
        match self {
            RknpuCmd::Action => 0,
            RknpuCmd::Submit => 1,
            RknpuCmd::MemCreate => 2,
            RknpuCmd::MemMap => 3,
            RknpuCmd::MemDestroy => 4,
            RknpuCmd::MemSync => 5,
        }
    }

    /// The number that stands for the command.
    pub fn number(self) -> (n: u32)
        ensures
            n == self.spec_number(),
    {
        match self {
            RknpuCmd::Action => 0,
            RknpuCmd::Submit => 1,
            RknpuCmd::MemCreate => 2,
            RknpuCmd::MemMap => 3,
            RknpuCmd::MemDestroy => 4,
            RknpuCmd::MemSync => 5,
        }
    }

    /// The command whose number sits in the low eight bits of `value`, if
    /// there is one.
    pub fn try_from(value: u32) -> (r: Result<RknpuCmd, ()>)
        ensures
            match r {
                Ok(cmd) => cmd.spec_number() == value % 256,
                Err(_) => value % 256 > 5,
            },
    {
        let nr: u32 = ioc_nr(value);
        if nr == 0 {
            Ok(RknpuCmd::Action)
        } else if nr == 1 {
            Ok(RknpuCmd::Submit)
        } else if nr == 2 {
            Ok(RknpuCmd::MemCreate)
        } else if nr == 3 {
            Ok(RknpuCmd::MemMap)
        } else if nr == 4 {
            Ok(RknpuCmd::MemDestroy)
        } else if nr == 5 {
            Ok(RknpuCmd::MemSync)
        } else {
            Err(())
        }
    }
}

/// What an ioctl on the device has to carry out once its arguments are
/// accepted.
#[derive(Debug, Clone, Copy, PartialEq, Eq, Structural)]
pub enum NpuRequest {
    /// Copy the action record in, run the action, copy the record back.
    Action,
    /// Copy the submission in, submit it, copy it back.
    Submit,
    /// Copy the creation request in, create the memory object, copy it back.
    MemCreate,
    /// A known command that the device does not carry out; the call
    /// succeeds without effect.
    Nothing,
}

/// What an ioctl with command `cmd` and argument `arg` comes to: a null
/// argument is malformed data, an unknown command number is a bad ioctl,
/// and every known command maps to what has to be carried out.
pub open spec fn spec_ioctl_request(cmd: u32, arg: usize) -> Result<NpuRequest, VfsError> {
    if arg == 0 {
        Err(VfsError::InvalidData)
    } else if cmd % 256 == 0 {
        Ok(NpuRequest::Action)
    } else if cmd % 256 == 1 {
        Ok(NpuRequest::Submit)
    } else if cmd % 256 == 2 {
        Ok(NpuRequest::MemCreate)
    } else if cmd % 256 <= 5 {
        Ok(NpuRequest::Nothing)
    } else {
        Err(VfsError::BadIoctl)
    }
}

/// Decides what an ioctl with command `cmd` and argument `arg` has to do.
pub fn ioctl_request(cmd: u32, arg: usize) -> (r: Result<NpuRequest, VfsError>)
    ensures
        r == spec_ioctl_request(cmd, arg),
{
    if arg == 0 {
        return Err(VfsError::InvalidData);
    }
    match RknpuCmd::try_from(cmd) {
        Ok(RknpuCmd::Action) => Ok(NpuRequest::Action),
        Ok(RknpuCmd::Submit) => Ok(NpuRequest::Submit),
        Ok(RknpuCmd::MemCreate) => Ok(NpuRequest::MemCreate),
        Ok(_) => Ok(NpuRequest::Nothing),
        Err(_) => Err(VfsError::BadIoctl),
    }
}

/// Turns the status of a copy between kernel and user memory into a
/// result: zero is success, anything else malformed data.
pub fn copy_status(ret: usize) -> (r: Result<(), VfsError>)
    ensures
        ret == 0 ==> r is Ok,
        ret != 0 ==> r == Err::<(), VfsError>(VfsError::InvalidData),
{
    if ret != 0 {
        return Err(VfsError::InvalidData);
    }
    Ok(())
}

/// The device node `/dev/rknpu`.
pub struct Rknpu;

impl Rknpu {
    /// Reading the device yields no bytes.
    pub fn read_at(&self, buf_len: usize, offset: u64) -> (r: Result<usize, VfsError>)
        ensures
            r == Ok::<usize, VfsError>(0usize),
    {
        Ok(0)
    }

    /// Writing to the device takes no bytes.
    pub fn write_at(&self, buf_len: usize, offset: u64) -> (r: Result<usize, VfsError>)
        ensures
            r == Ok::<usize, VfsError>(0usize),
    {
        Ok(0)
    }

    /// What an ioctl on the device has to carry out.
    pub fn ioctl(&self, cmd: u32, arg: usize) -> (r: Result<NpuRequest, VfsError>)
        ensures
            r == spec_ioctl_request(cmd, arg),
    {
        ioctl_request(cmd, arg)
    }

    /// The device is a stream that must not be cached.
    pub fn flags(&self) -> (flags: u32)
        ensures
            flags == 3,
    {
        assert(2u32 | 1u32 == 3u32) by (bit_vector);
        NODE_NON_CACHEABLE | NODE_STREAM
    }
}

} // verus!
