//! The `futex` system call: decoding of the operation, the checks on the
//! watched word, and the work on the table.
//!
//! Blocking itself is not done here. A wait that has to block leaves the
//! caller queued and says so; the caller's thread is then suspended by
//! whoever runs the threads, and [`futex_wait_finish`] is called when it
//! runs again.

use crate::errno::SysError;
use crate::futex::key::FutexKey;
use crate::futex::queue::{lemma_wake_partitions, spec_moved, Waiter, MASK_ALL};
use crate::futex::table::{
    spec_enqueue, spec_finish_result, spec_finish_table, spec_requeue_left, spec_requeue_table,
    spec_wake_result, spec_wake_table, FutexTable, FutexView,
};
use crate::mm::region::{
    lemma_after_check, lemma_check_keeps_contents, read_region, spec_after_check,
    spec_read_region, spec_region_valid,
};
use crate::mm::space::{AccessFlags, SpaceView, UserMemory};
use crate::mm::word::{
    read_word, spec_after_read_word, spec_read_word, spec_word64, spec_word_is, word64, word_is,
};
use crate::time::{TimeValue, TimeValueLike, Timespec};
use vstd::prelude::*;

verus! {

/// Block until woken, as long as the word holds the expected value.
pub const FUTEX_WAIT: u32 = 0;

/// Wake waiters.
pub const FUTEX_WAKE: u32 = 1;

/// Wake some waiters and move others to a second futex.
pub const FUTEX_REQUEUE: u32 = 3;

/// Like `FUTEX_REQUEUE`, after checking the word against an expected value.
pub const FUTEX_CMP_REQUEUE: u32 = 4;

/// Like `FUTEX_WAIT`, listening only to wake-ups that share a bit with a mask.
pub const FUTEX_WAIT_BITSET: u32 = 9;

/// Like `FUTEX_WAKE`, waking only waiters that share a bit with a mask.
pub const FUTEX_WAKE_BITSET: u32 = 10;

/// The bits of the operation argument that hold the command; the others
/// are option flags.
pub const FUTEX_CMD_MASK: u32 = 0xffff_fe7f;

/// Size in bytes of the head of a robust list.
pub const ROBUST_LIST_HEAD_SIZE: usize = 24;

/// A count passed in an unsigned argument must not have its top bit set.
pub open spec fn spec_assert_unsigned(value: u32) -> Result<u32, SysError> {
    if value > 0x7fff_ffff {
        Err(SysError::InvalidArgument)
    } else {
        Ok(value)
    }
}

/// Rejects a count that would be negative as a signed number.
pub fn assert_unsigned(value: u32) -> (r: Result<u32, SysError>)
    ensures
        r == spec_assert_unsigned(value),
{
    if value > 0x7fff_ffff {
        Err(SysError::InvalidArgument)
    } else {
        Ok(value)
    }
}

/// What a validated read of the time at `addr` gives: sixteen bytes at a
/// multiple of eight, seconds first, both numbers signed.
pub open spec fn spec_read_timespec(view: SpaceView, addr: int) -> Result<Timespec, SysError> {
    match spec_read_region(view, addr, 16, 8, AccessFlags::read_only()) {
        Ok(bytes) => Ok(
            Timespec {
                tv_sec: spec_word64(bytes.subrange(0, 8)) as i64,
                tv_nsec: spec_word64(bytes.subrange(8, 16)) as i64,
            },
        ),
        Err(e) => Err(e),
    }
}

/// Validates the time at `addr` for reading and returns it.
pub fn read_timespec<M: UserMemory>(mem: &mut M, addr: usize) -> (r: Result<Timespec, SysError>)
    requires
        old(mem).inv(),
    ensures
        final(mem).inv(),
        r == spec_read_timespec(old(mem).view(), addr as int),
        final(mem).view() == spec_after_check(
            old(mem).view(),
            addr as int,
            16,
            8,
            AccessFlags::read_only(),
        ),
{
    match read_region(mem, addr, 16, 8, AccessFlags::read_only()) {
        Ok(bytes) => {
            let sec: u64 = word64(bytes.as_slice(), 0);
            let nsec: u64 = word64(bytes.as_slice(), 8);
            Ok(
                Timespec {
                    tv_sec: #[verifier::truncate] (sec as i64),
                    tv_nsec: #[verifier::truncate] (nsec as i64),
                },
            )
        },
        Err(e) => Err(e),
    }
}

/// The time limit of a wait: none for a null pointer, otherwise the time at
/// `addr`, which must be a valid time value.
pub open spec fn spec_wait_timeout(view: SpaceView, addr: int) -> Result<
    Option<TimeValue>,
    SysError,
> {
    if addr == 0 {
        Ok(None)
    } else {
        match spec_read_timespec(view, addr) {
            Ok(ts) => match ts.spec_try_into_time_value() {
                Ok(tv) => Ok(Some(tv)),
                Err(e) => Err(e),
            },
            Err(e) => Err(e),
        }
    }
}

/// The command that an operation argument carries.
pub open spec fn spec_command(futex_op: u32) -> u32 {
    futex_op & FUTEX_CMD_MASK
}

/// The mask of a wait or a wake: the caller's for the bitset commands, all
/// bits otherwise.
pub open spec fn spec_mask(command: u32, value3: u32) -> u32 {
    if command == FUTEX_WAIT_BITSET || command == FUTEX_WAKE_BITSET {
        value3
    } else {
        MASK_ALL
    }
}

/// What a futex call comes to, as the contracts see it.
pub enum OutcomeView {
    /// The caller stands in the queue and has to be suspended.
    Suspend { timeout: Option<TimeValue> },
    /// The call is complete: these waiters were woken, and this is the
    /// number to return.
    Done { woken: Seq<Waiter>, count: nat },
}

/// What a futex call comes to.
pub enum FutexOutcome {
    /// The caller stands in the queue of its futex and has to be suspended
    /// until it is woken or the time limit, if there is one, runs out.
    Suspend { timeout: Option<TimeValue> },
    /// The call is complete. The threads of `woken` have left their queue
    /// and have to be resumed; `count` is what the call returns.
    Done { woken: Vec<Waiter>, count: usize },
}

impl View for FutexOutcome {
    type V = OutcomeView;

    open spec fn view(&self) -> OutcomeView {
        match self {
            FutexOutcome::Suspend { timeout } => OutcomeView::Suspend { timeout: *timeout },
            FutexOutcome::Done { woken, count } => OutcomeView::Done {
                woken: woken@,
                count: *count as nat,
            },
        }
    }
}

/// What a wait on `key` comes to. The word must hold `value`, else the
/// call would block on a change that has happened already; the time limit
/// must be readable and valid. Then the caller has to be suspended.
pub open spec fn spec_wait(view: SpaceView, uaddr: int, value: u32, timeout: int) -> Result<
    OutcomeView,
    SysError,
> {
    match spec_read_word(view, uaddr) {
        Err(e) => Err(e),
        Ok(word) => if word != value {
            Err(SysError::WouldBlock)
        } else {
            match spec_wait_timeout(view, timeout) {
                Err(e) => Err(e),
                Ok(limit) => Ok(OutcomeView::Suspend { timeout: limit }),
            }
        },
    }
}

/// What a requeue comes to before the table is touched: both counts must
/// be unsigned, and the comparing form needs the word to hold `value3`.
pub open spec fn spec_requeue_checks(
    view: SpaceView,
    command: u32,
    uaddr: int,
    value: u32,
    count2: u32,
    value3: u32,
) -> Result<(), SysError> {
    if value > 0x7fff_ffff {
        Err(SysError::InvalidArgument)
    } else if command == FUTEX_CMP_REQUEUE && spec_read_word(view, uaddr) is Err {
        Err(spec_read_word(view, uaddr)->Err_0)
    } else if command == FUTEX_CMP_REQUEUE && spec_read_word(view, uaddr)->Ok_0 != value3 {
        Err(SysError::WouldBlock)
    } else if count2 > 0x7fff_ffff {
        Err(SysError::InvalidArgument)
    } else {
        Ok(())
    }
}

/// What the futex call of `thread` comes to.
///
/// `key` is the key of the futex at `uaddr`, `key2` that of the futex at
/// the second address, which only the requeue commands use. For these the
/// argument `timeout` is no pointer: its low 32 bits are the second count.
pub open spec fn spec_sys_futex(
    table: Map<FutexKey, FutexView>,
    view: SpaceView,
    key: FutexKey,
    uaddr: usize,
    futex_op: u32,
    value: u32,
    timeout: usize,
    value3: u32,
) -> Result<OutcomeView, SysError> {
    let command = spec_command(futex_op);
    if command == FUTEX_WAIT || command == FUTEX_WAIT_BITSET {
        spec_wait(view, uaddr as int, value, timeout as int)
    } else if command == FUTEX_WAKE || command == FUTEX_WAKE_BITSET {
        let woken = spec_wake_result(table, key, value as nat, spec_mask(command, value3));
        Ok(OutcomeView::Done { woken, count: woken.len() })
    } else if command == FUTEX_REQUEUE || command == FUTEX_CMP_REQUEUE {
        match spec_requeue_checks(view, command, uaddr as int, value, timeout as u32, value3) {
            Err(e) => Err(e),
            Ok(_) => {
                let woken = spec_wake_result(table, key, value as nat, MASK_ALL);
                let moved = spec_moved(
                    spec_requeue_left(table, key, value as nat),
                    (timeout as u32) as nat,
                );
                Ok(OutcomeView::Done { woken, count: woken.len() + moved })
            },
        }
    } else {
        Err(SysError::Unsupported)
    }
}

/// The table after the futex call of `thread`. A call that fails leaves it
/// as it was.
pub open spec fn spec_sys_futex_table(
    table: Map<FutexKey, FutexView>,
    view: SpaceView,
    thread: u64,
    key: FutexKey,
    key2: FutexKey,
    uaddr: usize,
    futex_op: u32,
    value: u32,
    timeout: usize,
    value3: u32,
) -> Map<FutexKey, FutexView> {
    let command = spec_command(futex_op);
    if spec_sys_futex(table, view, key, uaddr, futex_op, value, timeout, value3) is Err {
        table
    } else if command == FUTEX_WAIT || command == FUTEX_WAIT_BITSET {
        spec_enqueue(table, key, Waiter { thread, mask: spec_mask(command, value3) })
    } else if command == FUTEX_WAKE || command == FUTEX_WAKE_BITSET {
        spec_wake_table(table, key, value as nat, spec_mask(command, value3))
    } else {
        spec_requeue_table(table, key, key2, value as nat, (timeout as u32) as nat)
    }
}

/// The address space after a futex call. A wait validates the word, and
/// with it backs its page; where the word holds the expected value and a
/// time limit is given, it validates the time limit too. A comparing
/// requeue with a valid first count validates the word. Nothing else
/// touches memory.
pub open spec fn spec_sys_futex_memory(
    view: SpaceView,
    uaddr: usize,
    futex_op: u32,
    value: u32,
    timeout: usize,
) -> SpaceView {
    let command = spec_command(futex_op);
    if command == FUTEX_WAIT || command == FUTEX_WAIT_BITSET {
        let read = spec_after_read_word(view, uaddr as int);
        if spec_read_word(view, uaddr as int) == Ok::<u32, SysError>(value) && timeout != 0 {
            spec_after_check(read, timeout as int, 16, 8, AccessFlags::read_only())
        } else {
            read
        }
    } else if command == FUTEX_CMP_REQUEUE && value <= 0x7fff_ffff {
        spec_after_read_word(view, uaddr as int)
    } else {
        view
    }
}

/// The result of a futex call agrees with what the call should come to.
pub open spec fn spec_outcome_matches(
    r: Result<FutexOutcome, SysError>,
    expected: Result<OutcomeView, SysError>,
) -> bool {
    match (r, expected) {
        (Ok(outcome), Ok(view)) => outcome@ == view,
        (Err(e), Err(f)) => e == f,
        _ => false,
    }
}

/// A word that a validated read has found to hold `value` is there to be
/// looked at again, and still holds `value`, as long as contents and
/// mappings stay and no page loses its frame.
proof fn lemma_word_stays(before: SpaceView, after: SpaceView, addr: int, value: u32)
    requires
        before.wf(),
        spec_read_word(before, addr) == Ok::<u32, SysError>(value),
        ({
            let read = spec_after_read_word(before, addr);
            &&& read.same_contents(after)
            &&& forall|a: int| read.present_at(a) ==> after.present_at(a)
        }),
    ensures
        spec_word_is(after, addr, value),
{
    let flags = AccessFlags::read_only();
    let read = spec_after_read_word(before, addr);
    lemma_after_check(before, addr, 4, flags);
    assert forall|k: int| 0 <= k < 4 implies (#[trigger] after.load(addr + k)) is Some by {
        assert(before.addr_permits(addr + k, flags));
        assert(read.present_at(addr + k));
        assert(read.addr_permits(addr + k, flags));
        assert(after.pages[(addr + k) / 4096].flags == read.pages[(addr + k) / 4096].flags);
    }
    assert(after.load(addr + 0) is Some);
    assert(after.load(addr + 1) is Some);
    assert(after.load(addr + 2) is Some);
    assert(after.load(addr + 3) is Some);
    assert(after.bytes.subrange(addr, addr + 4) =~= before.range(addr, 4));
}

/// Carries out the futex call of `thread` on the futex `key` at `uaddr`.
///
/// A wait checks the word first and touches the table only when the word
/// holds the expected value; it then queues the caller, looks at the word
/// once more, and reports that the caller has to be suspended. A wake
/// releases waiters; a requeue releases some and moves others to `key2`.
/// Every failure leaves the table as it was.
pub fn sys_futex_keyed<M: UserMemory>(
    table: &mut FutexTable,
    mem: &mut M,
    thread: u64,
    key: FutexKey,
    key2: FutexKey,
    uaddr: usize,
    futex_op: u32,
    value: u32,
    timeout: usize,
    value3: u32,
) -> (r: Result<FutexOutcome, SysError>)
    requires
        old(table).wf(),
        old(mem).inv(),
    ensures
        final(table).wf(),
        final(mem).inv(),
        final(mem).view() == spec_sys_futex_memory(
            old(mem).view(),
            uaddr,
            futex_op,
            value,
            timeout,
        ),
        spec_outcome_matches(
            r,
            spec_sys_futex(old(table)@, old(mem).view(), key, uaddr, futex_op, value, timeout, value3),
        ),
        final(table)@ == spec_sys_futex_table(
            old(table)@,
            old(mem).view(),
            thread,
            key,
            key2,
            uaddr,
            futex_op,
            value,
            timeout,
            value3,
        ),
{
    proof {
        mem.lemma_view_wf();
    }
    let command: u32 = futex_op & FUTEX_CMD_MASK;
    if command == FUTEX_WAIT || command == FUTEX_WAIT_BITSET {
        let ghost view0 = mem.view();
        let word = match read_word(mem, uaddr) {
            Ok(word) => word,
            Err(e) => {
                proof {
                    lemma_check_keeps_contents(view0, uaddr as int, 4, 4, AccessFlags::read_only());
                }
                return Err(e);
            },
        };
        let ghost view1 = mem.view();
        proof {
            lemma_check_keeps_contents(view0, uaddr as int, 4, 4, AccessFlags::read_only());
            lemma_check_keeps_contents(view1, timeout as int, 16, 8, AccessFlags::read_only());
            if spec_region_valid(view1, timeout as int, 16, 8, AccessFlags::read_only()) {
                lemma_after_check(view1, timeout as int, 16, AccessFlags::read_only());
            }
            assert(view1.range(timeout as int, 16) == view0.range(timeout as int, 16));
        }
        if word != value {
            return Err(SysError::WouldBlock);
        }
        let limit: Option<TimeValue> = if timeout != 0 {
            let ts = match read_timespec(mem, timeout) {
                Ok(ts) => ts,
                Err(e) => {
                    return Err(e);
                },
            };
            match ts.try_into_time_value() {
                Ok(tv) => Some(tv),
                Err(e) => {
                    return Err(e);
                },
            }
        } else {
            None
        };
        let mask: u32 = if command == FUTEX_WAIT_BITSET {
            value3
        } else {
            MASK_ALL
        };
        let shared: &M = &*mem;
        proof {
            assert(view1.same_contents(shared.view()));
            assert(forall|a: int| view1.present_at(a) ==> shared.view().present_at(a));
            lemma_word_stays(view0, shared.view(), uaddr as int, value);
        }
        let recheck = || -> (same: bool)
            requires
                shared.inv(),
            ensures
                same == spec_word_is(shared.view(), uaddr as int, value),
            { word_is(shared, uaddr, value) };
        if !table.wait_if(key, thread, mask, recheck) {
            return Err(SysError::WouldBlock);
        }
        Ok(FutexOutcome::Suspend { timeout: limit })
    } else if command == FUTEX_WAKE || command == FUTEX_WAKE_BITSET {
        let mask: u32 = if command == FUTEX_WAKE_BITSET {
            value3
        } else {
            MASK_ALL
        };
        let woken = table.wake(key, value as usize, mask);
        let count = woken.len();
        Ok(FutexOutcome::Done { woken, count })
    } else if command == FUTEX_REQUEUE || command == FUTEX_CMP_REQUEUE {
        match assert_unsigned(value) {
            Ok(_) => {},
            Err(e) => {
                return Err(e);
            },
        }
        if command == FUTEX_CMP_REQUEUE {
            let ghost view0 = mem.view();
            let read = read_word(mem, uaddr);
            proof {
                lemma_check_keeps_contents(view0, uaddr as int, 4, 4, AccessFlags::read_only());
            }
            match read {
                Ok(word) => {
                    if word != value3 {
                        return Err(SysError::WouldBlock);
                    }
                },
                Err(e) => {
                    return Err(e);
                },
            }
        }
        let count2: u32 = match assert_unsigned(#[verifier::truncate] (timeout as u32)) {
            Ok(count2) => count2,
            Err(e) => {
                return Err(e);
            },
        };
        proof {
            if old(table)@.contains_key(key) {
                lemma_wake_partitions(old(table)@[key].waiters, value as nat, MASK_ALL);
            }
        }
        let (woken, moved) = table.requeue(key, key2, value as usize, count2 as usize);
        let count = woken.len() + moved;
        Ok(FutexOutcome::Done { woken, count })
    } else {
        Err(SysError::Unsupported)
    }
}

/// Carries out the futex call of thread `thread` of process `process` on
/// the futex at `uaddr`, with `uaddr2` as the second address of a requeue.
///
/// Both addresses are taken to lie in private memory: the keys are made of
/// the process and the address. A futex in memory shared between processes
/// needs a key resolved with its backing, and [`sys_futex_keyed`].
pub fn sys_futex<M: UserMemory>(
    table: &mut FutexTable,
    mem: &mut M,
    process: u64,
    thread: u64,
    uaddr: usize,
    futex_op: u32,
    value: u32,
    timeout: usize,
    uaddr2: usize,
    value3: u32,
) -> (r: Result<FutexOutcome, SysError>)
    requires
        old(table).wf(),
        old(mem).inv(),
    ensures
        final(table).wf(),
        final(mem).inv(),
        final(mem).view() == spec_sys_futex_memory(
            old(mem).view(),
            uaddr,
            futex_op,
            value,
            timeout,
        ),
        spec_outcome_matches(
            r,
            spec_sys_futex(
                old(table)@,
                old(mem).view(),
                FutexKey::Private { process, address: uaddr },
                uaddr,
                futex_op,
                value,
                timeout,
                value3,
            ),
        ),
        final(table)@ == spec_sys_futex_table(
            old(table)@,
            old(mem).view(),
            thread,
            FutexKey::Private { process, address: uaddr },
            FutexKey::Private { process, address: uaddr2 },
            uaddr,
            futex_op,
            value,
            timeout,
            value3,
        ),
{
    let key = FutexKey::new_current(process, uaddr);
    let key2 = FutexKey::new_current(process, uaddr2);
    sys_futex_keyed(table, mem, thread, key, key2, uaddr, futex_op, value, timeout, value3)
}

/// Ends the wait of `thread` that began on `key`, when the thread runs
/// again, and gives what the wait returns: zero for a thread that was
/// woken; the owner's death, once, where it is to be reported; a timeout
/// for a thread that was still queued, which leaves its queue.
pub fn futex_wait_finish(table: &mut FutexTable, key: FutexKey, thread: u64) -> (r: Result<
    isize,
    SysError,
>)
    requires
        old(table).wf(),
    ensures
        final(table).wf(),
        r == match spec_finish_result(old(table)@, key, thread) {
            Ok(_) => Ok::<isize, SysError>(0isize),
            Err(e) => Err::<isize, SysError>(e),
        },
        final(table)@ == spec_finish_table(old(table)@, key, thread),
{
    match table.finish_wait(key, thread) {
        Ok(()) => Ok(0),
        Err(e) => Err(e),
    }
}

} // verus!
