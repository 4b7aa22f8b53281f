//! Reading, writing and copying: the checks on the arguments and the
//! bookkeeping of a copy between two files.

use crate::vfs::error::VfsError;
use vstd::prelude::*;

verus! {

/// `name` begins with the bytes of `prefix`.
pub open spec fn spec_starts_with(name: Seq<u8>, prefix: Seq<u8>) -> bool {
    prefix.len() <= name.len() && name.subrange(0, prefix.len() as int) == prefix
}

/// Whether `name` begins with `prefix`.
pub fn starts_with(name: &[u8], prefix: &[u8]) -> (found: bool)
    ensures
        found == spec_starts_with(name@, prefix@),
{
    if prefix.len() > name.len() {
        return false;
    }
    let mut i: usize = 0;
    while i < prefix.len()
        invariant
            i <= prefix@.len(),
            prefix@.len() <= name@.len(),
            forall|j: int| 0 <= j < i ==> name@[j] == prefix@[j],
        decreases prefix@.len() - i,
    {
        if name[i] != prefix[i] {
            assert(name@.subrange(0, prefix@.len() as int)[i as int] != prefix@[i as int]);
            return false;
        }
        i = i + 1;
    }
    assert(name@.subrange(0, prefix@.len() as int) =~= prefix@);
    true
}

/// The bytes of `qemu-`, with which the names of the emulator's tasks
/// begin.
pub open spec fn spec_emulator_prefix() -> Seq<u8> {
    seq![113u8, 101u8, 109u8, 117u8, 45u8]
}

/// Whether a task may be given a descriptor that stands for nothing. A
/// task of the emulator may not: it is told the truth, since it knows how
/// to do without.
pub fn sys_dummy_fd(task_name: &[u8]) -> (r: Result<(), VfsError>)
    ensures
        r is Ok <==> !spec_starts_with(task_name@, spec_emulator_prefix()),
        r is Err ==> r == Err::<(), VfsError>(VfsError::Unsupported),
{
    let prefix: [u8; 5] = [113, 101, 109, 117, 45];
    assert(prefix@ =~= spec_emulator_prefix());
    if starts_with(task_name, prefix.as_slice()) {
        return Err(VfsError::Unsupported);
    }
    Ok(())
}

/// Where a seek starts from.
#[derive(Clone, Copy, Debug, PartialEq, Eq, Structural)]
pub enum SeekFrom {
    Start(u64),
    Current(i64),
    End(i64),
}

/// The position that `lseek` asks for: from the start for a `whence` of 0,
/// from the current position for 1, from the end for 2.
pub open spec fn spec_lseek(offset: i64, whence: i32) -> Result<SeekFrom, VfsError> {
    if whence == 0 {
        Ok(SeekFrom::Start(offset as u64))
    } else if whence == 1 {
        Ok(SeekFrom::Current(offset))
    } else if whence == 2 {
        Ok(SeekFrom::End(offset))
    } else {
        Err(VfsError::InvalidInput)
    }
}

/// Decodes the arguments of `lseek`.
pub fn sys_lseek(offset: i64, whence: i32) -> (r: Result<SeekFrom, VfsError>)
    ensures
        r == spec_lseek(offset, whence),
{
    if whence == 0 {
        Ok(SeekFrom::Start(#[verifier::truncate] (offset as u64)))
    } else if whence == 1 {
        Ok(SeekFrom::Current(offset))
    } else if whence == 2 {
        Ok(SeekFrom::End(offset))
    } else {
        Err(VfsError::InvalidInput)
    }
}

/// The length that `truncate` sets; a negative length is invalid.
pub fn sys_truncate(length: i64) -> (r: Result<u64, VfsError>)
    ensures
        r == if length < 0 {
            Err::<u64, VfsError>(VfsError::InvalidInput)
        } else {
            Ok::<u64, VfsError>(length as u64)
        },
{
    if length < 0 {
        return Err(VfsError::InvalidInput);
    }
    Ok(length as u64)
}

/// The length that a file of `current` bytes has after `fallocate`: the
/// end of the range where that lies beyond the current end. Only mode zero
/// is known, and neither offset nor length may be negative.
pub open spec fn spec_fallocate(mode: u32, offset: i64, len: i64, current: u64) -> Result<
    u64,
    VfsError,
> {
    if mode != 0 || offset < 0 || len < 0 {
        Err(VfsError::InvalidInput)
    } else if offset + len > current {
        Ok((offset + len) as u64)
    } else {
        Ok(current)
    }
}

/// Decides the length that `fallocate` sets.
pub fn sys_fallocate(mode: u32, offset: i64, len: i64, current: u64) -> (r: Result<u64, VfsError>)
    ensures
        r == spec_fallocate(mode, offset, len, current),
{
    if mode != 0 || offset < 0 || len < 0 {
        return Err(VfsError::InvalidInput);
    }
    let end: u64 = offset as u64 + len as u64;
    if end > current {
        Ok(end)
    } else {
        Ok(current)
    }
}

/// `fadvise64` has no effect, but it refuses pipes and unknown advice.
pub fn sys_fadvise64(is_pipe: bool, advice: u32) -> (r: Result<isize, VfsError>)
    ensures
        r == if is_pipe {
            Err::<isize, VfsError>(VfsError::BrokenPipe)
        } else if advice > 5 {
            Err::<isize, VfsError>(VfsError::InvalidInput)
        } else {
            Ok::<isize, VfsError>(0isize)
        },
{
    if is_pipe {
        return Err(VfsError::BrokenPipe);
    }
    if advice > 5 {
        return Err(VfsError::InvalidInput);
    }
    Ok(0)
}

/// The offset of a positioned read; a negative one is invalid.
pub fn sys_pread64(offset: i64) -> (r: Result<u64, VfsError>)
    ensures
        r == if offset < 0 {
            Err::<u64, VfsError>(VfsError::InvalidInput)
        } else {
            Ok::<u64, VfsError>(offset as u64)
        },
{
    if offset < 0 {
        return Err(VfsError::InvalidInput);
    }
    Ok(offset as u64)
}

/// Whether a positioned write has anything to do: a write of no bytes
/// returns zero without looking at the descriptor.
pub fn sys_pwrite64(len: usize) -> (done: Option<isize>)
    ensures
        done == if len == 0 {
            Some(0isize)
        } else {
            None::<isize>
        },
{
    if len == 0 {
        Some(0)
    } else {
        None
    }
}

/// The offset that `sendfile` starts from must fit in 32 bits.
pub fn sys_sendfile(offset: u64) -> (r: Result<u64, VfsError>)
    ensures
        r == if offset > u32::MAX {
            Err::<u64, VfsError>(VfsError::InvalidInput)
        } else {
            Ok::<u64, VfsError>(offset)
        },
{
    if offset > u32::MAX as u64 {
        return Err(VfsError::InvalidInput);
    }
    Ok(offset)
}

/// How one end of a splice is reached.
#[derive(Clone, Copy, Debug, PartialEq, Eq, Structural)]
pub enum SpliceEnd {
    /// Through the file behind the descriptor, at an offset kept in user
    /// memory.
    Offset { pipe: bool },
    /// Through the descriptor itself.
    Direct { pipe: bool },
}

/// What one end of a splice comes to. `offset` is the value behind the
/// offset pointer where one is given. `pipe` tells, for a descriptor that
/// is a pipe, whether it is the end of the pipe that the splice needs.
/// `barred` tells that the descriptor is a file that cannot serve: one
/// opened as a mere path on the reading side, one that appends on the
/// writing side.
pub open spec fn spec_splice_end(offset: Option<i64>, pipe: Option<bool>, barred: bool) -> Result<
    SpliceEnd,
    VfsError,
> {
    match offset {
        Some(value) => if value < 0 {
            Err(VfsError::InvalidInput)
        } else {
            Ok(SpliceEnd::Offset { pipe: false })
        },
        None => if pipe == Some(false) {
            Err(VfsError::BadFileDescriptor)
        } else if barred {
            Err(VfsError::InvalidInput)
        } else {
            Ok(SpliceEnd::Direct { pipe: pipe is Some })
        },
    }
}

/// Decides how one end of a splice is reached.
pub fn splice_end(offset: Option<i64>, pipe: Option<bool>, barred: bool) -> (r: Result<
    SpliceEnd,
    VfsError,
>)
    ensures
        r == spec_splice_end(offset, pipe, barred),
{
    match offset {
        Some(value) => {
            if value < 0 {
                return Err(VfsError::InvalidInput);
            }
            Ok(SpliceEnd::Offset { pipe: false })
        },
        None => {
            let mut has_pipe = false;
            match pipe {
                Some(right_end) => {
                    if !right_end {
                        return Err(VfsError::BadFileDescriptor);
                    }
                    has_pipe = true;
                },
                None => {},
            }
            if barred {
                return Err(VfsError::InvalidInput);
            }
            Ok(SpliceEnd::Direct { pipe: has_pipe })
        },
    }
}

/// A splice needs a pipe at one of its ends at least.
pub fn sys_splice(src: SpliceEnd, dst: SpliceEnd) -> (r: Result<(), VfsError>)
    ensures
        r is Ok <==> (src matches SpliceEnd::Direct { pipe: true }) || (dst matches SpliceEnd::Direct {
            pipe: true,
        }),
        r is Err ==> r == Err::<(), VfsError>(VfsError::InvalidInput),
{
    let src_pipe = match src {
        SpliceEnd::Direct { pipe } => pipe,
        SpliceEnd::Offset { .. } => false,
    };
    let dst_pipe = match dst {
        SpliceEnd::Direct { pipe } => pipe,
        SpliceEnd::Offset { .. } => false,
    };
    if !src_pipe && !dst_pipe {
        return Err(VfsError::InvalidInput);
    }
    Ok(())
}

/// Size of the buffer through which bytes are copied between two files.
pub const SEND_CHUNK: usize = 0x1000;

/// The progress of a copy of at most a given number of bytes from one
/// file to another.
#[derive(Clone, Copy, Debug, PartialEq, Eq, Structural)]
pub struct SendState {
    pub total_written: usize,
    pub remaining: usize,
}

/// What the copy has to do next.
#[derive(Clone, Copy, Debug, PartialEq, Eq, Structural)]
pub enum SendStep {
    /// Read at most this many bytes from the source.
    Read(usize),
    /// Write the bytes just read to the destination.
    Write(usize),
    /// The copy is over and returns the number of bytes written.
    Finish(usize),
    /// The copy fails.
    Fail(VfsError),
}

impl SendState {
    /// A copy of at most `len` bytes, nothing copied yet.
    pub fn new(len: usize) -> (state: SendState)
        ensures
            state == (SendState { total_written: 0, remaining: len }),
    {
        SendState { total_written: 0, remaining: len }
    }

    /// Whether the source has to be asked for pending data before the next
    /// round: only once something has been copied.
    pub fn asks_for_data(&self) -> (asks: bool)
        ensures
            asks == (self.remaining > 0 && self.total_written > 0),
    {
        self.remaining > 0 && self.total_written > 0
    }

    /// Starts a round. The copy is over when nothing remains, or when
    /// something has been copied and the source has no data pending;
    /// otherwise a chunk is read.
    pub fn do_send(&self, src_has_data: bool) -> (step: SendStep)
        ensures
            step == if self.remaining == 0 || (self.total_written > 0 && !src_has_data) {
                SendStep::Finish(self.total_written)
            } else if self.remaining < SEND_CHUNK {
                SendStep::Read(self.remaining)
            } else {
                SendStep::Read(SEND_CHUNK)
            },
    {
        if self.remaining == 0 {
            return SendStep::Finish(self.total_written);
        }
        if self.total_written > 0 && !src_has_data {
            return SendStep::Finish(self.total_written);
        }
        if self.remaining < SEND_CHUNK {
            SendStep::Read(self.remaining)
        } else {
            SendStep::Read(SEND_CHUNK)
        }
    }

    /// Takes in what the read came to. No bytes end the copy. A source
    /// that would block ends it too once something has been copied; any
    /// other failure, or blocking before anything has been copied, fails
    /// the copy.
    pub fn after_read(&self, result: Result<usize, VfsError>) -> (step: SendStep)
        ensures
            step == match result {
                Ok(count) => if count == 0 {
                    SendStep::Finish(self.total_written)
                } else {
                    SendStep::Write(count)
                },
                Err(e) => if e == VfsError::WouldBlock && self.total_written > 0 {
                    SendStep::Finish(self.total_written)
                } else {
                    SendStep::Fail(e)
                },
            },
    {
        match result {
            Ok(count) => {
                if count == 0 {
                    SendStep::Finish(self.total_written)
                } else {
                    SendStep::Write(count)
                }
            },
            Err(e) => {
                if e == VfsError::WouldBlock && self.total_written > 0 {
                    SendStep::Finish(self.total_written)
                } else {
                    SendStep::Fail(e)
                }
            },
        }
    }

    /// Takes in what the write of `bytes_read` bytes came to. A failed
    /// write fails the copy. A short write ends it, and its bytes are not
    /// counted. A full write is counted, and the copy goes on.
    pub fn after_write(&mut self, bytes_read: usize, result: Result<usize, VfsError>) -> (step:
        Option<SendStep>)
        requires
            bytes_read <= old(self).remaining,
            old(self).total_written + old(self).remaining <= usize::MAX,
            result matches Ok(written) ==> written <= bytes_read,
        ensures
            final(self).total_written + final(self).remaining <= usize::MAX,
            match result {
                Err(e) => step == Some(SendStep::Fail(e)) && *final(self) == *old(self),
                Ok(written) => if written < bytes_read {
                    step == Some(SendStep::Finish(old(self).total_written)) && *final(self) == *old(self)
                } else {
                    step is None && *final(self) == (SendState {
                        total_written: (old(self).total_written + written) as usize,
                        remaining: (old(self).remaining - written) as usize,
                    })
                },
            },
    {
        match result {
            Err(e) => Some(SendStep::Fail(e)),
            Ok(written) => {
                if written < bytes_read {
                    return Some(SendStep::Finish(self.total_written));
                }
                self.total_written = self.total_written + written;
                self.remaining = self.remaining - written;
                None
            },
        }
    }
}

} // verus!
