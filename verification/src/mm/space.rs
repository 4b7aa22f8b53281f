//! The address-space capability that the validator works against, and the
//! mathematical picture of an address space that its contracts are stated over.

use crate::errno::SysError;
use vstd::prelude::*;

verus! {

/// Permissions asked of, or granted on, a region of user memory.
#[derive(Clone, Copy, Debug, PartialEq, Eq, Structural)]
pub struct AccessFlags {
    pub read: bool,
    pub write: bool,
    pub execute: bool,
}

impl AccessFlags {
    /// `self` grants everything that `wanted` asks for.
    pub open spec fn contains(self, wanted: AccessFlags) -> bool {
        &&& wanted.read ==> self.read
        &&& wanted.write ==> self.write
        &&& wanted.execute ==> self.execute
    }

    /// Permission to read.
    pub open spec fn spec_read_only() -> AccessFlags {
        AccessFlags { read: true, write: false, execute: false }
    }

    /// Permission to read and write.
    pub open spec fn spec_read_write() -> AccessFlags {
        AccessFlags { read: true, write: true, execute: false }
    }

    /// Permission to read.
    #[verifier::when_used_as_spec(spec_read_only)]
    pub fn read_only() -> (flags: AccessFlags)
        ensures
            flags == Self::spec_read_only(),
    {
        AccessFlags { read: true, write: false, execute: false }
    }

    /// Permission to read and write; what every write access asks for.
    #[verifier::when_used_as_spec(spec_read_write)]
    pub fn read_write() -> (flags: AccessFlags)
        ensures
            flags == Self::spec_read_write(),
    {
        AccessFlags { read: true, write: true, execute: false }
    }

    /// Whether `self` grants everything that `wanted` asks for.
    pub fn includes(self, wanted: AccessFlags) -> (ok: bool)
        ensures
            ok == self.contains(wanted),
    {
        (!wanted.read || self.read) && (!wanted.write || self.write) && (!wanted.execute
            || self.execute)
    }
}

/// One page of an address space, as the contracts see it.
pub struct PageView {
    /// The page belongs to a mapping.
    pub mapped: bool,
    /// What the mapping allows.
    pub flags: AccessFlags,
    /// A physical frame backs the page, so that touching it does not fault.
    pub present: bool,
}

/// An address space, as the contracts see it: its pages from address zero up
/// to its limit, and the byte that each address holds.
pub struct SpaceView {
    pub pages: Seq<PageView>,
    pub bytes: Seq<u8>,
}

impl SpaceView {
    /// The byte sequence covers exactly the pages, and every address fits the
    /// machine word.
    pub open spec fn wf(self) -> bool {
        &&& self.bytes.len() == self.pages.len() * 4096
        &&& self.bytes.len() <= usize::MAX
    }

    /// One past the last address of the space.
    pub open spec fn limit(self) -> int {
        self.bytes.len() as int
    }

    /// The page with number `page` exists, is mapped, and grants `flags`.
    pub open spec fn page_permits(self, page: int, flags: AccessFlags) -> bool {
        &&& 0 <= page < self.pages.len()
        &&& self.pages[page].mapped
        &&& self.pages[page].flags.contains(flags)
    }

    /// The page that holds `addr` grants `flags`.
    pub open spec fn addr_permits(self, addr: int, flags: AccessFlags) -> bool {
        self.page_permits(addr / 4096, flags)
    }

    /// Every byte of `[start, start + size)` lies in the space, in a page that
    /// grants `flags`.
    pub open spec fn accessible(self, start: int, size: int, flags: AccessFlags) -> bool {
        &&& 0 <= start
        &&& 0 <= size
        &&& start + size <= self.limit()
        &&& forall|addr: int|
            start <= addr < start + size ==> #[trigger] self.addr_permits(addr, flags)
    }

    /// The page that holds `addr` is backed by a frame.
    pub open spec fn present_at(self, addr: int) -> bool {
        &&& 0 <= addr / 4096 < self.pages.len()
        &&& self.pages[addr / 4096].present
    }

    /// What an unchecked read of one byte at `addr` gives: the byte, or
    /// nothing where the access faults.
    pub open spec fn load(self, addr: int) -> Option<u8> {
        if 0 <= addr < self.limit() && self.present_at(addr) && self.addr_permits(
            addr,
            AccessFlags::read_only(),
        ) {
            Some(self.bytes[addr])
        } else {
            None
        }
    }

    /// Whether an unchecked write of one byte at `addr` goes through.
    pub open spec fn storable(self, addr: int) -> bool {
        &&& 0 <= addr < self.limit()
        &&& self.present_at(addr)
        &&& self.addr_permits(addr, AccessFlags::read_write())
    }

    /// The bytes stored in `[start, start + size)`.
    pub open spec fn range(self, start: int, size: int) -> Seq<u8> {
        if size <= 0 {
            Seq::empty()
        } else {
            self.bytes.subrange(start, start + size)
        }
    }

    /// The same space with the pages numbered `first..end` backed by frames.
    pub open spec fn with_present(self, first: int, end: int) -> SpaceView {
        SpaceView {
            pages: Seq::new(
                self.pages.len(),
                |p: int|
                    if first <= p < end {
                        PageView { present: true, ..self.pages[p] }
                    } else {
                        self.pages[p]
                    },
            ),
            bytes: self.bytes,
        }
    }

    /// The same space with `value` stored at `addr`.
    pub open spec fn with_byte(self, addr: int, value: u8) -> SpaceView {
        SpaceView { pages: self.pages, bytes: self.bytes.update(addr, value) }
    }

    /// Both spaces have the same mappings, permissions and contents; they may
    /// differ in which pages are backed by frames.
    pub open spec fn same_contents(self, other: SpaceView) -> bool {
        &&& self.bytes == other.bytes
        &&& self.pages.len() == other.pages.len()
        &&& forall|p: int|
            0 <= p < self.pages.len() ==> {
                &&& (#[trigger] self.pages[p]).mapped == other.pages[p].mapped
                &&& self.pages[p].flags == other.pages[p].flags
            }
    }
}

/// The narrow capability through which the validator reaches a process's
/// address space: permission queries, page population, fault resolution, and
/// the unchecked single-byte accesses that may fault.
pub trait UserMemory {
    /// The implementation's own consistency condition.
    spec fn inv(&self) -> bool;

    /// The address space as the contracts see it.
    spec fn view(&self) -> SpaceView;

    /// A consistent implementation presents a well-formed space.
    proof fn lemma_view_wf(&self)
        requires
            self.inv(),
        ensures
            self.view().wf(),
    ;

    /// Whether every byte of the range lies in a mapping that grants `flags`.
    fn can_access_range(&self, start: usize, size: usize, flags: AccessFlags) -> (ok: bool)
        requires
            self.inv(),
        ensures
            ok == self.view().accessible(start as int, size as int, flags),
    ;

    /// Backs every page of the page-aligned range with a frame. Contents and
    /// permissions stay as they are. A range that the space grants can
    /// always be backed: memory pressure is the implementation's own to
    /// resolve before it answers.
    fn populate(&mut self, start: usize, size: usize, flags: AccessFlags) -> (r: Result<
        (),
        SysError,
    >)
        requires
            old(self).inv(),
            start % 4096 == 0,
            size % 4096 == 0,
            old(self).view().accessible(start as int, size as int, flags),
        ensures
            final(self).inv(),
            r is Ok,
            final(self).view() == old(self).view().with_present(
                start as int / 4096,
                (start + size) / 4096,
            ),
    ;

    /// Resolves a fault at `addr` for an access that needs `flags`: backs the
    /// page with a frame where the mapping grants the access, and reports
    /// whether it did.
    fn resolve_fault(&mut self, addr: usize, flags: AccessFlags) -> (resolved: bool)
        requires
            old(self).inv(),
        ensures
            final(self).inv(),
            resolved == old(self).view().addr_permits(addr as int, flags),
            resolved ==> final(self).view() == old(self).view().with_present(
                addr as int / 4096,
                addr as int / 4096 + 1,
            ),
            !resolved ==> final(self).view() == old(self).view(),
    ;

    /// Reads one byte without any check. `None` stands for the fault that the
    /// access raises where the page is not backed or not readable.
    fn load(&self, addr: usize) -> (byte: Option<u8>)
        requires
            self.inv(),
        ensures
            byte == self.view().load(addr as int),
    ;

    /// Writes one byte without any check. `false` stands for the fault that
    /// the access raises where the page is not backed or not writable.
    fn store(&mut self, addr: usize, value: u8) -> (done: bool)
        requires
            old(self).inv(),
        ensures
            final(self).inv(),
            done == old(self).view().storable(addr as int),
            done ==> final(self).view() == old(self).view().with_byte(addr as int, value),
            !done ==> final(self).view() == old(self).view(),
    ;
}

} // verus!
