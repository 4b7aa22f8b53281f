//! The access span that marks a deliberate access to user memory, and the
//! arbitration of page faults that depends on it.

use crate::mm::space::{AccessFlags, SpaceView, UserMemory};
use vstd::prelude::*;

verus! {

/// The per-thread marker that tells a deliberate access to user memory from
/// an accidental one. It is active only while a validator call that reads
/// through unbacked pages is under way.
pub struct AccessSpan {
    active: bool,
}

impl AccessSpan {
    /// The marker is set: a validated access is under way.
    pub closed spec fn is_active(&self) -> bool {
        self.active
    }

    /// A marker in its resting state, outside any access.
    pub fn new() -> (span: AccessSpan)
        ensures
            !span.is_active(),
    {
        AccessSpan { active: false }
    }

    /// Enters the span.
    pub fn begin(&mut self)
        ensures
            final(self).is_active(),
    {
        self.active = true;
    }

    /// Leaves the span.
    pub fn end(&mut self)
        ensures
            !final(self).is_active(),
    {
        self.active = false;
    }

    /// Whether the thread is inside a validated access.
    pub fn is_accessing_user_memory(&self) -> (active: bool)
        ensures
            active == self.is_active(),
    {
        self.active
    }
}

/// Decides what becomes of a page fault at `addr` raised by an access that
/// needs `flags`.
///
/// A fault of a thread without a process (`aspace` is `None`), or one taken
/// outside an access span, is not handled here and nothing changes. Inside a
/// span the fault is handed to the address space, whose answer is passed on:
/// the page gets backed where the mapping grants the access.
pub fn handle_page_fault<M: UserMemory>(
    span: &AccessSpan,
    aspace: Option<&mut M>,
    addr: usize,
    flags: AccessFlags,
) -> (handled: bool)
    requires
        aspace matches Some(mem) ==> mem.inv(),
    ensures
        handled <==> span.is_active() && (aspace matches Some(mem) && mem.view().addr_permits(
            addr as int,
            flags,
        )),
        aspace matches Some(mem) ==> final(mem).inv() && final(mem).view() == if handled {
            mem.view().with_present(addr as int / 4096, addr as int / 4096 + 1)
        } else {
            mem.view()
        },
{
    if !span.is_accessing_user_memory() {
        return false;
    }
    match aspace {
        None => false,
        Some(mem) => mem.resolve_fault(addr, flags),
    }
}

/// What a read of one byte at `addr` gives while faults are arbitrated: the
/// byte where the page is readable and either backed already or the read
/// happens inside an access span; nothing otherwise.
pub open spec fn spec_read_byte(view: SpaceView, span: AccessSpan, addr: int) -> Option<u8> {
    if 0 <= addr < view.limit() && view.addr_permits(addr, AccessFlags::read_only()) && (view.present_at(addr)
        || span.is_active()) {
        Some(view.bytes[addr])
    } else {
        None
    }
}

/// Reads one byte at `addr`. Where the access faults, the fault goes through
/// [`handle_page_fault`]; a resolved fault is followed by a second attempt.
pub fn read_byte<M: UserMemory>(mem: &mut M, span: &AccessSpan, addr: usize) -> (byte: Option<u8>)
    requires
        old(mem).inv(),
    ensures
        final(mem).inv(),
        byte == spec_read_byte(old(mem).view(), *span, addr as int),
        final(mem).view() == if byte is Some && !old(mem).view().present_at(addr as int) {
            old(mem).view().with_present(addr as int / 4096, addr as int / 4096 + 1)
        } else {
            old(mem).view()
        },
{
    proof {
        mem.lemma_view_wf();
    }
    match mem.load(addr) {
        Some(byte) => Some(byte),
        None => {
            if handle_page_fault(span, Some(&mut *mem), addr, AccessFlags::read_only()) {
                mem.load(addr)
            } else {
                None
            }
        },
    }
}

} // verus!
