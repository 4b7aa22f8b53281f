//! Validation of a region of known size: alignment, bounds and permission
//! against the address space, then population of the covering pages.

use crate::addr::{page_ceil, page_floor, spec_page_ceil, spec_page_floor};
use crate::errno::SysError;
use crate::mm::space::{AccessFlags, SpaceView, UserMemory};
use vstd::prelude::*;

verus! {

/// Number of the first page after the region `[start, start + size)`.
pub open spec fn spec_end_page(start: int, size: int) -> int {
    spec_page_ceil(start + size) / 4096
}

/// Whether the region `[start, start + size)` stands up to validation for
/// `flags`: its start is a multiple of `align`, and it is empty or
/// accessible as a whole.
pub open spec fn spec_region_valid(
    view: SpaceView,
    start: int,
    size: int,
    align: int,
    flags: AccessFlags,
) -> bool {
    start % align == 0 && (size == 0 || view.accessible(start, size, flags))
}

/// What validating the region `[start, start + size)` for `flags` comes to.
pub open spec fn spec_check_region(
    view: SpaceView,
    start: int,
    size: int,
    align: int,
    flags: AccessFlags,
) -> Result<(), SysError> {
    if spec_region_valid(view, start, size, align, flags) {
        Ok(())
    } else {
        Err(SysError::InvalidAddress)
    }
}

/// The space after the region `[start, start + size)` has been validated
/// for `flags`: the pages that cover a valid, non-empty region are backed;
/// otherwise nothing has changed.
pub open spec fn spec_after_check(
    view: SpaceView,
    start: int,
    size: int,
    align: int,
    flags: AccessFlags,
) -> SpaceView {
    if spec_region_valid(view, start, size, align, flags) && size > 0 {
        view.with_present(start / 4096, spec_end_page(start, size))
    } else {
        view
    }
}

/// The page-aligned range that covers a non-empty accessible region is
/// accessible too, and ends within the space.
pub proof fn lemma_covering_pages_accessible(
    view: SpaceView,
    start: int,
    size: int,
    flags: AccessFlags,
)
    requires
        view.wf(),
        size > 0,
        view.accessible(start, size, flags),
    ensures
        spec_page_ceil(start + size) <= view.limit(),
        view.accessible(
            spec_page_floor(start),
            spec_page_ceil(start + size) - spec_page_floor(start),
            flags,
        ),
{
    let lo = spec_page_floor(start);
    let hi = spec_page_ceil(start + size);
    assert forall|addr: int| lo <= addr < hi implies #[trigger] view.addr_permits(addr, flags) by {
        let page = addr / 4096;
        let witness = if page * 4096 < start {
            start
        } else {
            page * 4096
        };
        assert(start <= witness < start + size);
        assert(witness / 4096 == page);
        assert(view.addr_permits(witness, flags));
    }
}

/// Backing pages changes neither contents nor permissions, and the pages
/// that cover a region hold every byte of it.
pub proof fn lemma_after_check(view: SpaceView, start: int, size: int, flags: AccessFlags)
    requires
        view.wf(),
        size > 0,
        view.accessible(start, size, flags),
    ensures
        ({
            let after = view.with_present(start / 4096, spec_end_page(start, size));
            &&& after.wf()
            &&& after.bytes == view.bytes
            &&& after.same_contents(view)
            &&& after.accessible(start, size, flags)
            &&& forall|a: int| start <= a < start + size ==> #[trigger] after.present_at(a)
        }),
{
    let after = view.with_present(start / 4096, spec_end_page(start, size));
    assert forall|a: int| start <= a < start + size implies #[trigger] after.addr_permits(
        a,
        flags,
    ) by {
        assert(view.addr_permits(a, flags));
    }
    assert forall|a: int| start <= a < start + size implies #[trigger] after.present_at(a) by {
        assert(view.addr_permits(a, flags));
    }
}

/// A validation leaves mappings, permissions and contents as they were.
pub proof fn lemma_check_keeps_contents(
    view: SpaceView,
    start: int,
    size: int,
    align: int,
    flags: AccessFlags,
)
    requires
        view.wf(),
    ensures
        spec_after_check(view, start, size, align, flags).wf(),
        spec_after_check(view, start, size, align, flags).same_contents(view),
        forall|a: int, s: int, f: AccessFlags|
            spec_after_check(view, start, size, align, flags).accessible(a, s, f)
                == view.accessible(a, s, f),
{
    let after = spec_after_check(view, start, size, align, flags);
    assert forall|a: int, s: int, f: AccessFlags| after.accessible(a, s, f) == view.accessible(
        a,
        s,
        f,
    ) by {
        if view.accessible(a, s, f) {
            assert forall|addr: int| a <= addr < a + s implies #[trigger] after.addr_permits(
                addr,
                f,
            ) by {
                assert(view.addr_permits(addr, f));
            }
        }
        if after.accessible(a, s, f) {
            assert forall|addr: int| a <= addr < a + s implies #[trigger] view.addr_permits(
                addr,
                f,
            ) by {
                assert(after.addr_permits(addr, f));
            }
        }
    }
}

/// Validates the region `[start, start + size)` for an access that needs
/// `flags`, with `start` a multiple of `align`, and backs its pages.
///
/// Population may bring in physical memory even for an access that only
/// reads. Nothing changes unless the call succeeds on a non-empty region.
pub fn check_region<M: UserMemory>(
    mem: &mut M,
    start: usize,
    size: usize,
    align: usize,
    flags: AccessFlags,
) -> (r: Result<(), SysError>)
    requires
        old(mem).inv(),
        align > 0,
    ensures
        final(mem).inv(),
        r is Ok <==> spec_region_valid(
            old(mem).view(),
            start as int,
            size as int,
            align as int,
            flags,
        ),
        r is Err ==> r == Err::<(), SysError>(SysError::InvalidAddress),
        final(mem).view() == spec_after_check(
            old(mem).view(),
            start as int,
            size as int,
            align as int,
            flags,
        ),
{
    if start % align != 0 {
        return Err(SysError::InvalidAddress);
    }
    if size == 0 {
        return Ok(());
    }
    if !mem.can_access_range(start, size, flags) {
        return Err(SysError::InvalidAddress);
    }
    proof {
        mem.lemma_view_wf();
        lemma_covering_pages_accessible(mem.view(), start as int, size as int, flags);
    }
    let page_start = page_floor(start);
    let page_end = match page_ceil(start + size) {
        Some(end) => end,
        None => {
            return Err(SysError::InvalidAddress);
        },
    };
    mem.populate(page_start, page_end - page_start, flags)
}

/// The bytes of a space with those of `data` stored from `start` on.
pub open spec fn spec_with_range(view: SpaceView, start: int, data: Seq<u8>) -> SpaceView {
    SpaceView {
        pages: view.pages,
        bytes: Seq::new(
            view.bytes.len(),
            |a: int|
                if start <= a < start + data.len() {
                    data[a - start]
                } else {
                    view.bytes[a]
                },
        ),
    }
}

/// What a validated read of `[start, start + size)` gives: the bytes
/// stored there where the region is valid.
pub open spec fn spec_read_region(
    view: SpaceView,
    start: int,
    size: int,
    align: int,
    flags: AccessFlags,
) -> Result<Seq<u8>, SysError> {
    if spec_region_valid(view, start, size, align, flags) {
        Ok(view.range(start, size))
    } else {
        Err(SysError::InvalidAddress)
    }
}

/// The result of a read agrees with what the read should give.
pub open spec fn spec_bytes_match(r: Result<Vec<u8>, SysError>, expected: Result<
    Seq<u8>,
    SysError,
>) -> bool {
    match (r, expected) {
        (Ok(data), Ok(bytes)) => data@ == bytes,
        (Err(e), Err(f)) => e == f,
        _ => false,
    }
}

/// Validates the region `[start, start + size)` for `flags` and returns the
/// bytes stored in it. `flags` must include the permission to read.
pub fn read_region<M: UserMemory>(
    mem: &mut M,
    start: usize,
    size: usize,
    align: usize,
    flags: AccessFlags,
) -> (r: Result<Vec<u8>, SysError>)
    requires
        old(mem).inv(),
        align > 0,
        flags.read,
    ensures
        final(mem).inv(),
        spec_bytes_match(
            r,
            spec_read_region(old(mem).view(), start as int, size as int, align as int, flags),
        ),
        final(mem).view() == spec_after_check(
            old(mem).view(),
            start as int,
            size as int,
            align as int,
            flags,
        ),
{
    match check_region(mem, start, size, align, flags) {
        Err(e) => {
            return Err(e);
        },
        Ok(()) => {},
    }
    proof {
        old(mem).lemma_view_wf();
        if size > 0 {
            lemma_after_check(old(mem).view(), start as int, size as int, flags);
        }
    }
    let mut out: Vec<u8> = Vec::new();
    let mut i: usize = 0;
    while i < size
        invariant
            mem.inv(),
            i <= size,
            size > 0 ==> start + size <= usize::MAX,
            out@.len() == i,
            forall|k: int| 0 <= k < i ==> out@[k] == mem.view().bytes[start + k],
            size > 0 ==> mem.view().accessible(start as int, size as int, flags),
            forall|a: int| start <= a < start + size ==> #[trigger] mem.view().present_at(a),
            flags.read,
        decreases size - i,
    {
        proof {
            assert(mem.view().addr_permits(start + i, flags));
            assert(mem.view().present_at(start + i));
        }
        match mem.load(start + i) {
            Some(byte) => {
                out.push(byte);
            },
            None => {
                return Err(SysError::InvalidAddress);
            },
        }
        i = i + 1;
    }
    assert(out@ =~= old(mem).view().range(start as int, size as int));
    Ok(out)
}

/// The space after a validated write of `data` at `start`: where the
/// region is valid for writing, its pages are backed and hold `data`;
/// otherwise nothing has changed.
pub open spec fn spec_after_write(view: SpaceView, start: int, data: Seq<u8>, align: int) -> SpaceView {
    if spec_region_valid(view, start, data.len() as int, align, AccessFlags::read_write()) {
        spec_with_range(
            spec_after_check(view, start, data.len() as int, align, AccessFlags::read_write()),
            start,
            data,
        )
    } else {
        view
    }
}

/// Validates the region that `data` would fill from `start` on for writing
/// and stores `data` there.
pub fn write_region<M: UserMemory>(mem: &mut M, start: usize, data: &[u8], align: usize) -> (r:
    Result<(), SysError>)
    requires
        old(mem).inv(),
        align > 0,
    ensures
        final(mem).inv(),
        r is Ok <==> spec_region_valid(
            old(mem).view(),
            start as int,
            data@.len() as int,
            align as int,
            AccessFlags::read_write(),
        ),
        r is Err ==> r == Err::<(), SysError>(SysError::InvalidAddress),
        final(mem).view() == spec_after_write(old(mem).view(), start as int, data@, align as int),
{
    let size = data.len();
    let flags = AccessFlags::read_write();
    let checked = check_region(mem, start, size, align, flags);
    if checked.is_err() {
        return checked;
    }
    let ghost checked_view = mem.view();
    proof {
        old(mem).lemma_view_wf();
        if size > 0 {
            lemma_after_check(old(mem).view(), start as int, size as int, flags);
        }
    }
    let mut i: usize = 0;
    while i < size
        invariant
            mem.inv(),
            i <= size,
            size == data@.len(),
            size > 0 ==> start + size <= usize::MAX,
            flags == AccessFlags::read_write(),
            mem.view().pages == checked_view.pages,
            mem.view().bytes.len() == checked_view.bytes.len(),
            forall|a: int|
                0 <= a < checked_view.bytes.len() ==> #[trigger] mem.view().bytes[a] == if start
                    <= a < start + i {
                    data@[a - start]
                } else {
                    checked_view.bytes[a]
                },
            size > 0 ==> checked_view.accessible(start as int, size as int, flags),
            forall|a: int| start <= a < start + size ==> #[trigger] checked_view.present_at(a),
        decreases size - i,
    {
        proof {
            assert(checked_view.addr_permits(start + i, flags));
            assert(checked_view.present_at(start + i));
        }
        if !mem.store(start + i, data[i]) {
            return Err(SysError::InvalidAddress);
        }
        i = i + 1;
    }
    assert(mem.view().bytes =~= spec_with_range(checked_view, start as int, data@).bytes);
    assert(mem.view() == spec_with_range(checked_view, start as int, data@));
    Ok(())
}

/// A validated read of a region that is aligned, lies within the space and
/// is granted the access returns exactly the bytes stored there, and
/// leaves every byte of the space as it was.
pub proof fn lemma_read_returns_stored(
    view: SpaceView,
    start: int,
    size: int,
    align: int,
    flags: AccessFlags,
)
    requires
        view.wf(),
        start % align == 0,
        size > 0,
        view.accessible(start, size, flags),
    ensures
        spec_read_region(view, start, size, align, flags) == Ok::<Seq<u8>, SysError>(
            view.bytes.subrange(start, start + size),
        ),
        spec_after_check(view, start, size, align, flags).bytes == view.bytes,
{
    lemma_after_check(view, start, size, flags);
}

/// What has been stored through a validated write is what a validated read
/// of the same region returns.
pub proof fn lemma_read_after_write(
    view: SpaceView,
    start: int,
    data: Seq<u8>,
    align: int,
    flags: AccessFlags,
)
    requires
        view.wf(),
        align > 0,
        spec_region_valid(view, start, data.len() as int, align, AccessFlags::read_write()),
        AccessFlags::read_write().contains(flags),
    ensures
        spec_read_region(
            spec_after_write(view, start, data, align),
            start,
            data.len() as int,
            align,
            flags,
        ) == Ok::<Seq<u8>, SysError>(data),
{
    let size = data.len() as int;
    let after = spec_after_write(view, start, data, align);
    if size > 0 {
        assert(view.accessible(start, size, AccessFlags::read_write()));
        assert forall|a: int| start <= a < start + size implies #[trigger] after.addr_permits(
            a,
            flags,
        ) by {
            assert(view.addr_permits(a, AccessFlags::read_write()));
        }
        assert(after.range(start, size) =~= data);
    } else {
        assert(after.range(start, size) =~= data);
    }
}

/// A byte put into memory behind the back of the validator is what a
/// validated read of a region that holds it returns at its place; every
/// other byte of the region is as before.
pub proof fn lemma_read_sees_stored_byte(
    view: SpaceView,
    addr: int,
    value: u8,
    start: int,
    size: int,
    align: int,
    flags: AccessFlags,
)
    requires
        view.wf(),
        start <= addr < start + size,
        spec_region_valid(view, start, size, align, flags),
    ensures
        spec_region_valid(view.with_byte(addr, value), start, size, align, flags),
        spec_read_region(view.with_byte(addr, value), start, size, align, flags) matches Ok(bytes)
            && bytes.len() == size && bytes[addr - start] == value && forall|i: int|
            0 <= i < size && i != addr - start ==> bytes[i] == view.bytes[start + i],
{
    let after = view.with_byte(addr, value);
    assert forall|a: int| start <= a < start + size implies #[trigger] after.addr_permits(
        a,
        flags,
    ) by {
        assert(view.addr_permits(a, flags));
    }
}

} // verus!
