//! Validation of data whose length is not known up front: a run of
//! fixed-size elements that ends at the first element made of zero bytes.

use crate::addr::{page_floor, spec_page_floor, PAGE_SIZE};
use crate::errno::SysError;
use crate::mm::fault::{read_byte, AccessSpan};
use crate::mm::region::spec_end_page;
use crate::mm::space::{AccessFlags, SpaceView, UserMemory};
use vstd::prelude::*;

verus! {

/// Byte `k` of element `index` in a run of `size`-byte elements that starts
/// at `start`.
pub open spec fn spec_element_byte(view: SpaceView, start: int, size: int, index: int, k: int) -> u8 {
    view.bytes[start + index * size + k]
}

/// Element `index` consists of zero bytes only.
pub open spec fn spec_zero_element(view: SpaceView, start: int, size: int, index: int) -> bool {
    forall|k: int| 0 <= k < size ==> #[trigger] spec_element_byte(view, start, size, index, k) == 0
}

/// Element `n` is the sentinel of the run: it is the first element made of
/// zero bytes, and every byte up to its end lies in a page that grants
/// `flags`.
pub open spec fn spec_sentinel_at(
    view: SpaceView,
    start: int,
    size: int,
    flags: AccessFlags,
    n: int,
) -> bool {
    &&& 0 <= n
    &&& spec_zero_element(view, start, size, n)
    &&& forall|i: int| 0 <= i < n ==> !#[trigger] spec_zero_element(view, start, size, i)
    &&& view.accessible(start, (n + 1) * size, flags)
}

/// `page` is where a scan from `start` on comes to a halt for want of
/// permission: the first page, from that of `start` on, that does not grant
/// `flags`.
pub open spec fn spec_gap_page(view: SpaceView, start: int, flags: AccessFlags, page: int) -> bool {
    &&& start / 4096 <= page
    &&& !view.page_permits(page, flags)
    &&& forall|q: int| start / 4096 <= q < page ==> #[trigger] view.page_permits(q, flags)
}

/// The space after a scan that found the sentinel `n`: every page from
/// that of `start` to that of the sentinel's last byte is backed.
pub open spec fn spec_after_scan(view: SpaceView, start: int, size: int, n: int) -> SpaceView {
    view.with_present(start / 4096, spec_end_page(start, (n + 1) * size))
}

/// `after` is the space after a scan that failed: the pages before the one
/// that does not grant the access are backed, and nothing else has
/// changed.
pub open spec fn spec_after_failed_scan(
    view: SpaceView,
    start: int,
    flags: AccessFlags,
    after: SpaceView,
) -> bool {
    exists|page: int| #[trigger]
        spec_gap_page(view, start, flags, page) && after == view.with_present(start / 4096, page)
}

/// A run has at most one sentinel.
pub proof fn lemma_sentinel_unique(
    view: SpaceView,
    start: int,
    size: int,
    flags: AccessFlags,
    n: int,
    m: int,
)
    requires
        spec_sentinel_at(view, start, size, flags, n),
        spec_sentinel_at(view, start, size, flags, m),
    ensures
        n == m,
{
    if n < m {
        assert(!spec_zero_element(view, start, size, n));
    }
    if m < n {
        assert(!spec_zero_element(view, start, size, m));
    }
}

/// A run that reaches an address whose page does not grant `flags` before
/// any of its elements is zero has no sentinel.
pub proof fn lemma_no_sentinel_past_gap(
    view: SpaceView,
    start: int,
    size: int,
    flags: AccessFlags,
    gap: int,
)
    requires
        size > 0,
        start <= gap,
        !view.addr_permits(gap, flags),
        forall|i: int|
            0 <= i && start + (i + 1) * size <= gap ==> !#[trigger] spec_zero_element(
                view,
                start,
                size,
                i,
            ),
    ensures
        forall|n: int| !spec_sentinel_at(view, start, size, flags, n),
{
    assert forall|n: int| !spec_sentinel_at(view, start, size, flags, n) by {
        if spec_sentinel_at(view, start, size, flags, n) {
            if start + (n + 1) * size <= gap {
                assert(!spec_zero_element(view, start, size, n));
            } else {
                assert(view.addr_permits(gap, flags));
            }
        }
    }
}

proof fn lemma_next_element(index: int, size: int)
    ensures
        (index + 1) * size == index * size + size,
{
    assert((index + 1) * size == index * size + size) by (nonlinear_arith);
}

proof fn lemma_element_order(a: int, b: int, size: int)
    requires
        a <= b,
        size > 0,
    ensures
        a * size <= b * size,
{
    assert(a * size <= b * size) by (nonlinear_arith)
        requires
            a <= b,
            size > 0,
    ;
}

/// A scan that has found no sentinel among the first `len` elements and
/// comes, at byte `k` of the next one, to a page that does not grant the
/// access, has no sentinel at all, and that page is where it halts.
proof fn lemma_scan_halts(
    view: SpaceView,
    start: int,
    size: int,
    flags: AccessFlags,
    len: int,
    k: int,
    frontier: int,
)
    requires
        size > 0,
        0 <= len,
        0 <= k < size,
        0 <= start,
        spec_page_floor(start) <= frontier,
        frontier % 4096 == 0,
        frontier <= start + len * size + k < frontier + 4096,
        !view.addr_permits(start + len * size + k, flags),
        forall|a: int| spec_page_floor(start) <= a < frontier ==> #[trigger] view.addr_permits(a, flags),
        forall|i: int| 0 <= i < len ==> !#[trigger] spec_zero_element(view, start, size, i),
    ensures
        forall|n: int| !spec_sentinel_at(view, start, size, flags, n),
        spec_gap_page(view, start, flags, (start + len * size + k) / 4096),
{
    let addr = start + len * size + k;
    assert forall|n: int| !spec_sentinel_at(view, start, size, flags, n) by {
        if spec_sentinel_at(view, start, size, flags, n) {
            if n < len {
                assert(!spec_zero_element(view, start, size, n));
            } else {
                lemma_element_order(len + 1, n + 1, size);
                lemma_next_element(len, size);
                assert(view.addr_permits(addr, flags));
            }
        }
    }
    let page = addr / 4096;
    assert forall|q: int| start / 4096 <= q < page implies #[trigger] view.page_permits(q, flags) by {
        assert(view.addr_permits(q * 4096, flags));
    }
}

/// Touching one more page of a run extends the pages that the run has
/// touched by that page.
proof fn lemma_touch_page(before: SpaceView, now: SpaceView, first: int, touched: int, page: int)
    requires
        now == before.with_present(first, touched),
        first <= page,
        page <= touched <= page + 1,
        0 <= page < before.pages.len(),
    ensures
        now.with_present(page, page + 1) == before.with_present(first, page + 1),
        now.pages[page].present ==> now == before.with_present(first, page + 1),
{
    assert(now.with_present(page, page + 1).pages =~= before.with_present(first, page + 1).pages);
    if now.pages[page].present {
        assert(now.pages =~= before.with_present(first, page + 1).pages);
    }
}

/// The elements before the sentinel of the run of `elem_size`-byte elements
/// that starts at `start`, and their number.
///
/// The scan advances byte by byte. Whenever it enters a page it first asks
/// the address space whether the whole page grants `flags`; then it reads,
/// and a read that faults is resolved through the fault arbitration. It ends
/// at the first element made of zero bytes, or fails at the first page that
/// does not grant the access.
#[verifier::rlimit(40)]
pub fn scan_until_sentinel<M: UserMemory>(
    mem: &mut M,
    span: &AccessSpan,
    start: usize,
    elem_size: usize,
    flags: AccessFlags,
) -> (r: Result<(usize, Vec<u8>), SysError>)
    requires
        old(mem).inv(),
        span.is_active(),
        elem_size > 0,
        flags.read,
    ensures
        final(mem).inv(),
        match r {
            Ok((len, bytes)) => {
                &&& spec_sentinel_at(old(mem).view(), start as int, elem_size as int, flags, len as int)
                &&& bytes@ == old(mem).view().range(start as int, len * elem_size)
                &&& final(mem).view() == spec_after_scan(
                    old(mem).view(),
                    start as int,
                    elem_size as int,
                    len as int,
                )
            },
            Err(e) => {
                &&& e == SysError::InvalidAddress
                &&& forall|n: int|
                    !spec_sentinel_at(old(mem).view(), start as int, elem_size as int, flags, n)
                &&& spec_after_failed_scan(old(mem).view(), start as int, flags, final(mem).view())
            },
        },
{
    let ghost before = mem.view();
    let ghost first = start as int / 4096;
    let ghost size = elem_size as int;
    proof {
        mem.lemma_view_wf();
        assert(before.with_present(first, first).pages =~= before.pages);
    }
    let mut out: Vec<u8> = Vec::new();
    let mut len: usize = 0;
    let mut k: usize = 0;
    let mut zero: bool = true;
    let mut addr: usize = start;
    let mut frontier: usize = page_floor(start);
    let ghost mut touched: int = first;
    let ghost mut nonzero: int = 0;
    loop
        invariant
            mem.inv(),
            before.wf(),
            before == old(mem).view(),
            span.is_active(),
            flags.read,
            size == elem_size,
            first == start as int / 4096,
            elem_size > 0,
            0 <= k < elem_size,
            addr == start + len * size + k,
            frontier % 4096 == 0,
            spec_page_floor(start as int) <= frontier,
            frontier <= addr + 4096,
            addr < frontier + 4096,
            addr > start ==> addr <= frontier,
            frontier > spec_page_floor(start as int) ==> frontier <= before.limit(),
            forall|a: int|
                spec_page_floor(start as int) <= a < frontier ==> #[trigger] before.addr_permits(
                    a,
                    flags,
                ),
            forall|i: int| 0 <= i < len ==> !#[trigger] spec_zero_element(before, start as int, size, i),
            zero ==> forall|j: int|
                0 <= j < k ==> #[trigger] spec_element_byte(before, start as int, size, len as int, j)
                    == 0,
            !zero ==> 0 <= nonzero < k && spec_element_byte(
                before,
                start as int,
                size,
                len as int,
                nonzero,
            ) != 0,
            out@.len() == addr - start,
            forall|j: int| 0 <= j < out@.len() ==> out@[j] == before.bytes[start + j],
            touched == if addr == start {
                first
            } else {
                (addr - 1) / 4096 + 1
            },
            mem.view() == before.with_present(first, touched),
        decreases usize::MAX - addr,
    {
        if addr >= frontier {
            if !mem.can_access_range(frontier, PAGE_SIZE, flags) {
                proof {
                    assert(!before.addr_permits(addr as int, flags)) by {
                        if frontier + 4096 <= before.limit() {
                            let bad = choose|a: int|
                                frontier <= a < frontier + 4096 && !#[trigger] mem.view().addr_permits(
                                    a,
                                    flags,
                                );
                            assert(bad / 4096 == addr as int / 4096);
                        }
                    }
                    lemma_scan_halts(
                        before,
                        start as int,
                        size,
                        flags,
                        len as int,
                        k as int,
                        frontier as int,
                    );
                    assert(touched == addr as int / 4096);
                }
                return Err(SysError::InvalidAddress);
            }
            proof {
                assert forall|a: int| frontier <= a < frontier + 4096 implies #[trigger] before.addr_permits(
                    a,
                    flags,
                ) by {
                    assert(mem.view().addr_permits(a, flags));
                }
            }
            frontier = frontier + PAGE_SIZE;
        }
        proof {
            assert(before.addr_permits(addr as int, flags));
            assert(mem.view().addr_permits(addr as int, AccessFlags::read_only()));
            lemma_touch_page(before, mem.view(), first, touched, addr as int / 4096);
        }
        let byte = match read_byte(mem, span, addr) {
            Some(byte) => byte,
            None => {
                return Err(SysError::InvalidAddress);
            },
        };
        proof {
            touched = addr as int / 4096 + 1;
            assert(byte == spec_element_byte(before, start as int, size, len as int, k as int));
        }
        out.push(byte);
        if byte != 0 {
            proof {
                if zero {
                    nonzero = k as int;
                }
            }
            zero = false;
        }
        k = k + 1;
        if k == elem_size {
            proof {
                lemma_next_element(len as int, size);
            }
            if zero {
                proof {
                    assert(spec_zero_element(before, start as int, size, len as int));
                    assert forall|a: int|
                        start <= a < start + (len + 1) * size implies #[trigger] before.addr_permits(
                        a,
                        flags,
                    ) by {}
                }
                out.truncate(len * elem_size);
                assert(out@ =~= before.range(start as int, len * elem_size));
                return Ok((len, out));
            }
            proof {
                assert(!spec_zero_element(before, start as int, size, len as int));
                lemma_element_order(1, size, len as int + 1);
            }
            len = len + 1;
            k = 0;
            zero = true;
        }
        addr = addr + 1;
    }
}

/// Number of elements before the sentinel of the run of `elem_size`-byte
/// elements that starts at `start`, which must be a multiple of `align`.
///
/// The access span is entered for the scan and left again on every way out.
pub fn check_null_terminated<M: UserMemory>(
    mem: &mut M,
    span: &mut AccessSpan,
    start: usize,
    elem_size: usize,
    align: usize,
    flags: AccessFlags,
) -> (r: Result<usize, SysError>)
    requires
        old(mem).inv(),
        elem_size > 0,
        align > 0,
        flags.read,
    ensures
        final(mem).inv(),
        start % align != 0 ==> r == Err::<usize, SysError>(SysError::InvalidAddress) && *final(span)
            == *old(span) && final(mem).view() == old(mem).view(),
        start % align == 0 ==> !final(span).is_active(),
        start % align == 0 ==> match r {
            Ok(len) => {
                &&& spec_sentinel_at(old(mem).view(), start as int, elem_size as int, flags, len as int)
                &&& final(mem).view() == spec_after_scan(
                    old(mem).view(),
                    start as int,
                    elem_size as int,
                    len as int,
                )
            },
            Err(e) => {
                &&& e == SysError::InvalidAddress
                &&& forall|n: int|
                    !spec_sentinel_at(old(mem).view(), start as int, elem_size as int, flags, n)
                &&& spec_after_failed_scan(old(mem).view(), start as int, flags, final(mem).view())
            },
        },
{
    if start % align != 0 {
        return Err(SysError::InvalidAddress);
    }
    span.begin();
    let scanned = scan_until_sentinel(mem, &*span, start, elem_size, flags);
    span.end();
    match scanned {
        Ok((len, _)) => Ok(len),
        Err(e) => Err(e),
    }
}

} // verus!
