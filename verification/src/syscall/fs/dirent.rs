//! Directory entries in the layout that `getdents64` hands to user space.
//!
//! A record holds the inode number (8 bytes), the offset of the next entry
//! (8 bytes, signed), its own length (2 bytes), the node type (1 byte) and
//! the name with a zero byte behind it, filled up with zero bytes to a
//! multiple of eight. Numbers are stored least significant byte first.

use crate::mm::word::{bytes64, spec_bytes64};
use crate::vfs::error::VfsError;
use crate::vfs::node::NodeType;
use vstd::prelude::*;

verus! {

/// Where the name starts in a record.
pub const NAME_OFFSET: usize = 19;

/// The length of the record for a name of `name_len` bytes: header, name
/// and terminator, rounded up to a multiple of eight.
pub open spec fn spec_record_len(name_len: int) -> int {
    (NAME_OFFSET + name_len + 1 + 7) / 8 * 8
}

/// The record for one directory entry.
pub open spec fn spec_record(d_ino: u64, d_off: i64, d_type: NodeType, name: Seq<u8>) -> Seq<u8> {
    let len = spec_record_len(name.len() as int);
    Seq::new(
        len as nat,
        |i: int|
            if i < 8 {
                spec_bytes64(d_ino)[i]
            } else if i < 16 {
                spec_bytes64(d_off as u64)[i - 8]
            } else if i == 16 {
                (len % 256) as u8
            } else if i == 17 {
                (len / 256 % 256) as u8
            } else if i == 18 {
                d_type.spec_code()
            } else if i < NAME_OFFSET + name.len() {
                name[i - NAME_OFFSET]
            } else {
                0u8
            },
    )
}

/// A buffer that directory records are written to, one behind the other.
pub struct DirBuffer {
    buf: Vec<u8>,
    offset: usize,
}

impl DirBuffer {
    /// The bytes of the buffer.
    pub closed spec fn spec_bytes(&self) -> Seq<u8> {
        self.buf@
    }

    /// How many bytes have been written.
    pub closed spec fn spec_offset(&self) -> int {
        self.offset as int
    }

    /// What has been written lies within the buffer, and everything behind
    /// it is zero.
    pub open spec fn wf(&self) -> bool {
        &&& 0 <= self.spec_offset() <= self.spec_bytes().len()
        &&& self.spec_bytes().len() <= isize::MAX
        &&& forall|i: int|
            self.spec_offset() <= i < self.spec_bytes().len() ==> self.spec_bytes()[i] == 0
    }

    /// A buffer of `len` zero bytes, nothing written.
    pub fn new(len: usize) -> (buffer: DirBuffer)
        requires
            len <= isize::MAX,
        ensures
            buffer.wf(),
            buffer.spec_offset() == 0,
            buffer.spec_bytes().len() == len,
    {
        let mut buf: Vec<u8> = Vec::new();
        let mut i: usize = 0;
        while i < len
            invariant
                i <= len,
                buf@.len() == i,
                forall|j: int| 0 <= j < i ==> buf@[j] == 0,
            decreases len - i,
        {
            buf.push(0);
            i = i + 1;
        }
        DirBuffer { buf, offset: 0 }
    }

    /// The room that is left.
    pub fn remaining_space(&self) -> (room: usize)
        requires
            self.wf(),
        ensures
            room == self.spec_bytes().len() - self.spec_offset(),
    {
        self.buf.len() - self.offset
    }

    /// How many bytes have been written.
    pub fn offset(&self) -> (offset: usize)
        ensures
            offset == self.spec_offset(),
    {
        self.offset
    }

    /// The whole buffer, written part and rest.
    pub fn into_bytes(self) -> (bytes: Vec<u8>)
        ensures
            bytes@ == self.spec_bytes(),
    {
        self.buf
    }

    /// Writes the record of one entry behind what has been written, if it
    /// fits. Tells whether it did; a record that does not fit leaves the
    /// buffer as it is.
    pub fn write_entry(&mut self, d_ino: u64, d_off: i64, d_type: NodeType, name: &[u8]) -> (fits:
        bool)
        requires
            old(self).wf(),
        ensures
            final(self).wf(),
            fits == (spec_record_len(name@.len() as int) <= old(self).spec_bytes().len() - old(self).spec_offset()),
            !fits ==> final(self).spec_bytes() == old(self).spec_bytes() && final(self).spec_offset() == old(self).spec_offset(),
            fits ==> final(self).spec_offset() == old(self).spec_offset() + spec_record_len(
                name@.len() as int,
            ),
            fits ==> final(self).spec_bytes() == old(self).spec_bytes().subrange(
                0,
                old(self).spec_offset(),
            ) + spec_record(d_ino, d_off, d_type, name@) + old(self).spec_bytes().subrange(
                final(self).spec_offset(),
                old(self).spec_bytes().len() as int,
            ),
    {
        let room: usize = self.buf.len() - self.offset;
        if name.len() > room {
            return false;
        }
        let len: usize = (NAME_OFFSET + name.len() + 1 + 7) / 8 * 8;
        if room < len {
            return false;
        }
        let base: usize = self.offset;
        let ino = bytes64(d_ino);
        let off = bytes64(#[verifier::truncate] (d_off as u64));
        let code: u8 = d_type.code();
        let ghost before = self.buf@;
        let ghost record = spec_record(d_ino, d_off, d_type, name@);
        let mut i: usize = 0;
        while i < NAME_OFFSET + name.len()
            invariant
                i <= NAME_OFFSET + name@.len(),
                NAME_OFFSET + name@.len() < len,
                base + len <= self.buf@.len(),
                self.buf@.len() == before.len(),
                before.len() <= isize::MAX,
                self.offset == base,
                len == spec_record_len(name@.len() as int),
                ino@ == spec_bytes64(d_ino),
                off@ == spec_bytes64(d_off as u64),
                code == d_type.spec_code(),
                record == spec_record(d_ino, d_off, d_type, name@),
                forall|j: int| 0 <= j < base ==> self.buf@[j] == before[j],
                forall|j: int| base + i <= j < before.len() ==> self.buf@[j] == before[j],
                forall|j: int| 0 <= j < i ==> self.buf@[base + j] == record[j],
            decreases NAME_OFFSET + name@.len() - i,
        {
            let byte: u8 = if i < 8 {
                ino[i]
            } else if i < 16 {
                off[i - 8]
            } else if i == 16 {
                (len % 256) as u8
            } else if i == 17 {
                (len / 256 % 256) as u8
            } else if i == 18 {
                code
            } else {
                name[i - NAME_OFFSET]
            };
            self.buf[base + i] = byte;
            i = i + 1;
        }
        self.offset = base + len;
        proof {
            let after = before.subrange(0, base as int) + record + before.subrange(
                base + len,
                before.len() as int,
            );
            assert forall|j: int| 0 <= j < before.len() implies self.buf@[j] == after[j] by {
                if base <= j < base + len {
                    if j - base >= NAME_OFFSET + name@.len() {
                        assert(before[j] == 0);
                    }
                }
            }
            assert(self.buf@ =~= after);
        }
        true
    }
}

/// One entry of a directory as the file system reports it.
pub struct DirEntry {
    /// The name, as bytes.
    pub name: Vec<u8>,
    /// The inode number.
    pub ino: u64,
    /// The node type.
    pub node_type: NodeType,
    /// The directory offset of the entry that follows.
    pub offset: u64,
}

/// How many of `entries`, taken in order, fit into `room` bytes.
pub open spec fn spec_fitting(entries: Seq<DirEntry>, room: int) -> nat
    decreases entries.len(),
{
    if entries.len() == 0 {
        0
    } else if spec_record_len(entries[0].name@.len() as int) > room {
        0
    } else {
        1 + spec_fitting(
            entries.drop_first(),
            room - spec_record_len(entries[0].name@.len() as int),
        )
    }
}

/// The records of `entries`, one behind the other.
pub open spec fn spec_records(entries: Seq<DirEntry>) -> Seq<u8>
    decreases entries.len(),
{
    if entries.len() == 0 {
        Seq::empty()
    } else {
        spec_records(entries.drop_last()) + spec_record(
            entries.last().ino,
            entries.last().offset as i64,
            entries.last().node_type,
            entries.last().name@,
        )
    }
}

/// What `getdents64` returns for the entries that a directory still has to
/// offer, read from `dir_offset` on, and a user buffer of `len` bytes.
pub struct Dirents {
    /// The bytes for the user buffer: the records, then zeros up to `len`.
    pub bytes: Vec<u8>,
    /// Number of bytes that the records take.
    pub written: usize,
    /// Where the next call has to go on reading the directory.
    pub dir_offset: u64,
}

/// Fills a buffer of `len` bytes with the records of as many of `entries`
/// as fit, in order. Where the directory has entries left but not even the
/// first one fits, the buffer is too small: an invalid argument.
pub fn sys_getdents64(entries: &[DirEntry], dir_offset: u64, len: usize) -> (r: Result<
    Dirents,
    VfsError,
>)
    requires
        len <= isize::MAX,
    ensures
        match r {
            Ok(out) => {
                let count = spec_fitting(entries@, len as int);
                &&& entries@.len() > 0 ==> count > 0
                &&& out.bytes@.len() == len
                &&& out.written <= len
                &&& out.bytes@.subrange(0, out.written as int) == spec_records(
                    entries@.take(count as int),
                )
                &&& forall|i: int| out.written <= i < len ==> out.bytes@[i] == 0
                &&& out.dir_offset == if count == 0 {
                    dir_offset
                } else {
                    entries@[count - 1].offset
                }
            },
            Err(e) => {
                &&& e == VfsError::InvalidInput
                &&& entries@.len() > 0
                &&& spec_fitting(entries@, len as int) == 0
            },
        },
{
    let mut buffer = DirBuffer::new(len);
    let mut next: u64 = dir_offset;
    let mut i: usize = 0;
    let mut full: bool = false;
    proof {
        assert(entries@.skip(0) =~= entries@);
        assert(entries@.take(0) =~= Seq::<DirEntry>::empty());
    }
    while i < entries.len() && !full
        invariant
            i <= entries@.len(),
            full ==> spec_fitting(entries@.skip(i as int), len - buffer.spec_offset()) == 0,
            buffer.wf(),
            buffer.spec_bytes().len() == len,
            spec_fitting(entries@, len as int) == i + spec_fitting(
                entries@.skip(i as int),
                len - buffer.spec_offset(),
            ),
            buffer.spec_bytes().subrange(0, buffer.spec_offset()) == spec_records(
                entries@.take(i as int),
            ),
            next == if i == 0 {
                dir_offset
            } else {
                entries@[i - 1].offset
            },
        decreases
                entries@.len() - i + if full {
                    0int
                } else {
                    1int
                },
    {
        let entry = &entries[i];
        let ghost rest = entries@.skip(i as int);
        let ghost before = buffer.spec_bytes();
        let ghost at = buffer.spec_offset();
        proof {
            assert(rest[0] == entries@[i as int]);
            assert(rest.drop_first() =~= entries@.skip(i + 1));
        }
        if buffer.write_entry(
            entry.ino,
            #[verifier::truncate] (entry.offset as i64),
            entry.node_type,
            entry.name.as_slice(),
        ) {
            proof {
                let taken = entries@.take(i + 1);
                assert(taken.drop_last() =~= entries@.take(i as int));
                assert(taken.last() == entries@[i as int]);
                assert(buffer.spec_bytes().subrange(0, buffer.spec_offset()) =~= before.subrange(
                    0,
                    at,
                ) + spec_record(entry.ino, entry.offset as i64, entry.node_type, entry.name@));
            }
            next = entry.offset;
            i = i + 1;
        } else {
            full = true;
        }
    }
    proof {
        if i == entries@.len() {
            assert(entries@.skip(i as int) =~= Seq::<DirEntry>::empty());
        }
        if i > 0 {
            let taken = entries@.take(i as int);
            assert(spec_records(taken).len() >= spec_record(
                taken.last().ino,
                taken.last().offset as i64,
                taken.last().node_type,
                taken.last().name@,
            ).len());
        }
    }
    if entries.len() > 0 && buffer.offset() == 0 {
        return Err(VfsError::InvalidInput);
    }
    let written = buffer.offset();
    Ok(Dirents { bytes: buffer.into_bytes(), written, dir_offset: next })
}

} // verus!
