//! The robust list of a thread: the user-space list of held locks that is
//! walked when the thread dies.

use crate::errno::SysError;
use crate::futex::op::ROBUST_LIST_HEAD_SIZE;
use crate::mm::region::{spec_after_write, spec_region_valid};
use crate::mm::space::{AccessFlags, UserMemory};
use crate::mm::word::{spec_bytes64, write_word64};
use vstd::prelude::*;

verus! {

/// Where a thread keeps the head of its robust list.
pub struct RobustList {
    head: usize,
}

impl RobustList {
    /// The address of the list head; zero while none is registered.
    pub closed spec fn spec_head(&self) -> usize {
        self.head
    }

    /// No list registered.
    pub fn new() -> (list: RobustList)
        ensures
            list.spec_head() == 0,
    {
        RobustList { head: 0 }
    }

    /// The address of the list head.
    pub fn robust_list_head(&self) -> (head: usize)
        ensures
            head == self.spec_head(),
    {
        self.head
    }

    /// Registers the list head at `head`.
    pub fn set_robust_list_head(&mut self, head: usize)
        ensures
            final(self).spec_head() == head,
    {
        self.head = head;
    }
}

/// Registers the robust list of the calling thread. The caller must state
/// the size of a list head as this kernel knows it.
pub fn sys_set_robust_list(list: &mut RobustList, head: usize, size: usize) -> (r: Result<
    isize,
    SysError,
>)
    ensures
        size != ROBUST_LIST_HEAD_SIZE ==> r == Err::<isize, SysError>(SysError::InvalidArgument)
            && final(list).spec_head() == old(list).spec_head(),
        size == ROBUST_LIST_HEAD_SIZE ==> r == Ok::<isize, SysError>(0isize)
            && final(list).spec_head() == head,
{
    if size != ROBUST_LIST_HEAD_SIZE {
        return Err(SysError::InvalidArgument);
    }
    list.set_robust_list_head(head);
    Ok(0)
}

/// Reports the robust list `list` of a thread to user space: the address of
/// its head goes to `head_ptr`, the size of a list head to `size_ptr`. The
/// head is written first; a failure at the size leaves it written.
pub fn sys_get_robust_list<M: UserMemory>(
    mem: &mut M,
    list: &RobustList,
    head_ptr: usize,
    size_ptr: usize,
) -> (r: Result<isize, SysError>)
    requires
        old(mem).inv(),
    ensures
        final(mem).inv(),
        ({
            let flags = AccessFlags::read_write();
            let first = spec_after_write(
                old(mem).view(),
                head_ptr as int,
                spec_bytes64(list.spec_head() as u64),
                8,
            );
            let head_ok = spec_region_valid(old(mem).view(), head_ptr as int, 8, 8, flags);
            let size_ok = spec_region_valid(first, size_ptr as int, 8, 8, flags);
            &&& r == if head_ok && size_ok {
                Ok::<isize, SysError>(0isize)
            } else {
                Err::<isize, SysError>(SysError::InvalidAddress)
            }
            &&& final(mem).view() == if head_ok {
                spec_after_write(first, size_ptr as int, spec_bytes64(24), 8)
            } else {
                old(mem).view()
            }
        }),
{
    match write_word64(mem, head_ptr, list.robust_list_head() as u64) {
        Ok(()) => {},
        Err(e) => {
            return Err(e);
        },
    }
    match write_word64(mem, size_ptr, ROBUST_LIST_HEAD_SIZE as u64) {
        Ok(()) => Ok(0),
        Err(e) => Err(e),
    }
}

} // verus!
