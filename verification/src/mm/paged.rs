//! An address space held in ordinary memory: pages that are mapped with
//! permissions and backed by frames only once they are touched.

use crate::errno::SysError;
use crate::mm::space::{AccessFlags, SpaceView, UserMemory};
use vstd::prelude::*;

verus! {

/// Bookkeeping for one page.
#[derive(Clone, Copy, Debug, PartialEq, Eq, Structural)]
pub struct PageState {
    pub mapped: bool,
    pub flags: AccessFlags,
    pub present: bool,
}

/// An address space of whole pages starting at address zero.
///
/// Mapping a page grants permissions on it without backing it; the page is
/// backed when it is populated or when a fault on it is resolved. The bytes of
/// a page exist from the start and stay as they are across both.
pub struct PagedMemory {
    pages: Vec<PageState>,
    data: Vec<u8>,
}

impl View for PageState {
    type V = crate::mm::space::PageView;

    open spec fn view(&self) -> crate::mm::space::PageView {
        crate::mm::space::PageView { mapped: self.mapped, flags: self.flags, present: self.present }
    }
}

impl PagedMemory {
    /// A space of `count` pages, none of them mapped, every byte zero.
    /// `None` where that many pages do not fit the address range.
    pub fn with_pages(count: usize) -> (mem: Option<PagedMemory>)
        ensures
            mem is Some <==> count * 4096 <= usize::MAX,
            mem matches Some(m) ==> {
                &&& m.inv()
                &&& m.view().pages.len() == count
                &&& forall|p: int|
                    0 <= p < count ==> #[trigger] m.view().pages[p] == (crate::mm::space::PageView {
                        mapped: false,
                        flags: AccessFlags { read: false, write: false, execute: false },
                        present: false,
                    })
                &&& m.view().bytes.len() == count * 4096
                &&& forall|a: int| 0 <= a < count * 4096 ==> #[trigger] m.view().bytes[a] == 0
            },
    {
        if count > usize::MAX / 4096 {
            return None;
        }
        let blank = PageState {
            mapped: false,
            flags: AccessFlags { read: false, write: false, execute: false },
            present: false,
        };
        let pages: Vec<PageState> = vec![blank; count];
        let data: Vec<u8> = vec![0u8; count * 4096];
        let mem = PagedMemory { pages, data };
        Some(mem)
    }

    /// Maps the pages numbered `first..first + count` with `flags`, without
    /// backing them. Returns `false`, changing nothing, where the range leaves
    /// the space.
    pub fn map(&mut self, first: usize, count: usize, flags: AccessFlags) -> (done: bool)
        requires
            old(self).inv(),
        ensures
            final(self).inv(),
            done == (first + count <= old(self).view().pages.len()),
            !done ==> final(self).view() == old(self).view(),
            done ==> final(self).view().bytes == old(self).view().bytes,
            done ==> final(self).view().pages.len() == old(self).view().pages.len(),
            done ==> forall|p: int|
                0 <= p < old(self).view().pages.len() ==> #[trigger] final(self).view().pages[p]
                    == if first <= p < first + count {
                    crate::mm::space::PageView { mapped: true, flags, present: false }
                } else {
                    old(self).view().pages[p]
                },
    {
        if first > self.pages.len() || count > self.pages.len() - first {
            return false;
        }
        let end: usize = first + count;
        let mut p: usize = first;
        while p < end
            invariant
                first <= p <= end,
                end <= self.pages.len(),
                self.pages.len() == old(self).pages.len(),
                self.data == old(self).data,
                forall|q: int|
                    0 <= q < self.pages.len() ==> #[trigger] self.pages[q] == if first <= q < p {
                        PageState { mapped: true, flags, present: false }
                    } else {
                        old(self).pages[q]
                    },
            decreases end - p,
        {
            self.pages[p] = PageState { mapped: true, flags, present: false };
            p = p + 1;
        }
        true
    }

    /// Stores `value` at `addr` behind the back of every permission check and
    /// without touching which pages are backed. Returns `false`, changing
    /// nothing, where `addr` lies outside the space.
    pub fn poke(&mut self, addr: usize, value: u8) -> (done: bool)
        requires
            old(self).inv(),
        ensures
            final(self).inv(),
            done == (addr < old(self).view().limit()),
            done ==> final(self).view() == old(self).view().with_byte(addr as int, value),
            !done ==> final(self).view() == old(self).view(),
    {
        if addr >= self.data.len() {
            return false;
        }
        self.data[addr] = value;
        assert(self.view().pages =~= old(self).view().pages);
        true
    }

    /// The byte at `addr`, read behind the back of every permission check;
    /// `None` where `addr` lies outside the space.
    pub fn peek(&self, addr: usize) -> (byte: Option<u8>)
        requires
            self.inv(),
        ensures
            byte == if addr < self.view().limit() {
                Some(self.view().bytes[addr as int])
            } else {
                None
            },
    {
        if addr >= self.data.len() {
            None
        } else {
            Some(self.data[addr])
        }
    }

    /// Whether the page that holds `addr` is backed by a frame.
    pub fn is_present(&self, addr: usize) -> (present: bool)
        requires
            self.inv(),
        ensures
            present == self.view().present_at(addr as int),
    {
        let page: usize = addr / 4096;
        page < self.pages.len() && self.pages[page].present
    }

    fn page_grants(&self, page: usize, flags: AccessFlags) -> (ok: bool)
        requires
            self.inv(),
        ensures
            ok == self.view().page_permits(page as int, flags),
    {
        page < self.pages.len() && self.pages[page].mapped && self.pages[page].flags.includes(flags)
    }
}

impl UserMemory for PagedMemory {
    closed spec fn inv(&self) -> bool {
        self.data.len() == self.pages.len() * 4096
    }

    closed spec fn view(&self) -> SpaceView {
        SpaceView { pages: self.pages@.map_values(|s: PageState| s@), bytes: self.data@ }
    }

    proof fn lemma_view_wf(&self) {
    }

    fn can_access_range(&self, start: usize, size: usize, flags: AccessFlags) -> (ok: bool) {
        if start > self.data.len() || size > self.data.len() - start {
            return false;
        }
        if size == 0 {
            return true;
        }
        let last: usize = (start + (size - 1)) / 4096;
        let mut page: usize = start / 4096;
        while page <= last
            invariant
                self.inv(),
                start / 4096 <= page <= last + 1,
                last == (start + size - 1) / 4096,
                start + size <= self.data.len(),
                size > 0,
                forall|addr: int|
                    start <= addr < start + size && addr / 4096 < page
                        ==> #[trigger] self.view().addr_permits(addr, flags),
            decreases last + 1 - page,
        {
            if !self.page_grants(page, flags) {
                proof {
                    let witness: int = if page as int * 4096 < start {
                        start as int
                    } else {
                        page as int * 4096
                    };
                    assert(start <= witness < start + size);
                    assert(witness / 4096 == page);
                    assert(!self.view().addr_permits(witness, flags));
                }
                return false;
            }
            page = page + 1;
        }
        true
    }

    fn populate(&mut self, start: usize, size: usize, flags: AccessFlags) -> (r: Result<
        (),
        SysError,
    >) {
        let first: usize = start / 4096;
        let end: usize = (start + size) / 4096;
        let mut page: usize = first;
        while page < end
            invariant
                first <= page <= end,
                end <= self.pages.len(),
                self.pages.len() == old(self).pages.len(),
                self.data == old(self).data,
                forall|q: int|
                    0 <= q < self.pages.len() ==> #[trigger] self.pages[q] == if first <= q < page {
                        PageState { present: true, ..old(self).pages[q] }
                    } else {
                        old(self).pages[q]
                    },
            decreases end - page,
        {
            let state = self.pages[page];
            self.pages[page] = PageState { present: true, ..state };
            page = page + 1;
        }
        assert(self.view().pages =~= old(self).view().with_present(
            start as int / 4096,
            (start + size) / 4096,
        ).pages);
        Ok(())
    }

    fn resolve_fault(&mut self, addr: usize, flags: AccessFlags) -> (resolved: bool) {
        let page: usize = addr / 4096;
        if !self.page_grants(page, flags) {
            return false;
        }
        let state = self.pages[page];
        self.pages[page] = PageState { present: true, ..state };
        assert(self.view().pages =~= old(self).view().with_present(
            addr as int / 4096,
            addr as int / 4096 + 1,
        ).pages);
        true
    }

    fn load(&self, addr: usize) -> (byte: Option<u8>) {
        let page: usize = addr / 4096;
        if addr < self.data.len() && self.pages[page].present && self.page_grants(
            page,
            AccessFlags::read_only(),
        ) {
            Some(self.data[addr])
        } else {
            None
        }
    }

    fn store(&mut self, addr: usize, value: u8) -> (done: bool) {
        let page: usize = addr / 4096;
        if addr < self.data.len() && self.pages[page].present && self.page_grants(
            page,
            AccessFlags::read_write(),
        ) {
            self.data[addr] = value;
            assert(self.view().pages =~= old(self).view().pages);
            true
        } else {
            false
        }
    }
}

} // verus!
