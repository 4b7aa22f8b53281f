//! Page arithmetic on user addresses.

use vstd::prelude::*;

verus! {

/// Size of the pages in which user memory is validated and populated.
pub const PAGE_SIZE: usize = 4096;

/// The greatest multiple of the page size that is not above `addr`.
pub open spec fn spec_page_floor(addr: int) -> int {
    addr - addr % 4096
}

/// The least multiple of the page size that is not below `addr`.
pub open spec fn spec_page_ceil(addr: int) -> int {
    if addr % 4096 == 0 {
        addr
    } else {
        addr - addr % 4096 + 4096
    }
}

/// `memory_addr::align_down_4k` clears the low twelve bits of the address,
/// which gives the start of the page that holds it.
pub assume_specification[ memory_addr::align_down_4k ](addr: usize) -> (aligned: usize)
    ensures
        aligned == spec_page_floor(addr as int),
;

/// `memory_addr::align_up_4k` adds 4095 and clears the low twelve bits. The
/// sum must fit in `usize`; the result is the start of the next page unless
/// the address already is the start of one.
pub assume_specification[ memory_addr::align_up_4k ](addr: usize) -> (aligned: usize)
    requires
        addr + 4095 <= usize::MAX,
    ensures
        aligned == spec_page_ceil(addr as int),
;

/// Start of the page that holds `addr`.
pub fn page_floor(addr: usize) -> (start: usize)
    ensures
        start == spec_page_floor(addr as int),
        start <= addr < start + 4096,
        start % 4096 == 0,
{
    memory_addr::align_down_4k(addr)
}

/// End of the last page touched by a region that ends at `addr`, or `None`
/// where that end lies beyond the address space.
pub fn page_ceil(addr: usize) -> (end: Option<usize>)
    ensures
        match end {
            Some(e) => e == spec_page_ceil(addr as int),
            None => spec_page_ceil(addr as int) > usize::MAX,
        },
{
    if addr > usize::MAX - 4095 {
        None
    } else {
        Some(memory_addr::align_up_4k(addr))
    }
}

} // verus!
