use linux_raw_sys::general as linux;
use starry::errno::{syscall_return, SysError};
use starry::futex::key::{FutexKey, SharedBacking};
use starry::futex::op::{
    assert_unsigned, futex_wait_finish, read_timespec, sys_futex, sys_futex_keyed, FutexOutcome,
    FUTEX_CMD_MASK, FUTEX_CMP_REQUEUE, FUTEX_REQUEUE, FUTEX_WAIT, FUTEX_WAIT_BITSET, FUTEX_WAKE,
    FUTEX_WAKE_BITSET, ROBUST_LIST_HEAD_SIZE,
};
use starry::futex::queue::{WaitQueue, Waiter, MASK_ALL};
use starry::futex::robust::{sys_get_robust_list, sys_set_robust_list, RobustList};
use starry::futex::table::{Futex, FutexTable};
use starry::mm::paged::PagedMemory;
use starry::mm::space::AccessFlags;
use starry::mm::word::{read_word, word_is};
use starry::time::{TimeValue, Timespec};

const PAGE: usize = 4096;
const A: usize = PAGE + 16;
const B: usize = PAGE + 64;
const PID: u64 = 7;

fn memory() -> PagedMemory {
    let mut mem = PagedMemory::with_pages(4).unwrap();
    assert!(mem.map(1, 2, AccessFlags::read_write()));
    mem
}

fn store_u32(mem: &mut PagedMemory, addr: usize, value: u32) {
    for (i, b) in value.to_le_bytes().iter().enumerate() {
        assert!(mem.poke(addr + i, *b));
    }
}

fn store_i64(mem: &mut PagedMemory, addr: usize, value: i64) {
    for (i, b) in value.to_le_bytes().iter().enumerate() {
        assert!(mem.poke(addr + i, *b));
    }
}

fn key(addr: usize) -> FutexKey {
    FutexKey::new_current(PID, addr)
}

fn threads(woken: &[Waiter]) -> Vec<u64> {
    woken.iter().map(|w| w.thread).collect()
}

fn wait(table: &mut FutexTable, mem: &mut PagedMemory, thread: u64, addr: usize, value: u32) {
    match sys_futex(table, mem, PID, thread, addr, FUTEX_WAIT, value, 0, 0, 0) {
        Ok(FutexOutcome::Suspend { timeout: None }) => {}
        _ => panic!("the wait should have queued the caller"),
    }
}

fn done(r: Result<FutexOutcome, SysError>) -> (Vec<u64>, usize) {
    match r {
        Ok(FutexOutcome::Done { woken, count }) => (threads(&woken), count),
        Ok(FutexOutcome::Suspend { .. }) => panic!("unexpected suspension"),
        Err(e) => panic!("unexpected error {:?}", e),
    }
}

fn failure(r: Result<FutexOutcome, SysError>) -> SysError {
    match r {
        Err(e) => e,
        Ok(_) => panic!("the call should have failed"),
    }
}

#[test]
fn operation_codes_are_the_linux_ones() {
    assert_eq!(FUTEX_WAIT, linux::FUTEX_WAIT);
    assert_eq!(FUTEX_WAKE, linux::FUTEX_WAKE);
    assert_eq!(FUTEX_REQUEUE, linux::FUTEX_REQUEUE);
    assert_eq!(FUTEX_CMP_REQUEUE, linux::FUTEX_CMP_REQUEUE);
    assert_eq!(FUTEX_WAIT_BITSET, linux::FUTEX_WAIT_BITSET);
    assert_eq!(FUTEX_WAKE_BITSET, linux::FUTEX_WAKE_BITSET);
    assert_eq!(FUTEX_CMD_MASK, linux::FUTEX_CMD_MASK as u32);
    assert_eq!(ROBUST_LIST_HEAD_SIZE, std::mem::size_of::<linux::robust_list_head>());
}

#[test]
fn errors_map_to_errno_numbers() {
    assert_eq!(SysError::InvalidAddress.errno(), 14);
    assert_eq!(SysError::InvalidEncoding.errno(), 84);
    assert_eq!(SysError::WouldBlock.errno(), 11);
    assert_eq!(SysError::TimedOut.errno(), 110);
    assert_eq!(SysError::OwnerDied.errno(), 130);
    assert_eq!(SysError::Unsupported.errno(), 38);
    assert_eq!(SysError::InvalidArgument.errno(), 22);
    assert_eq!(SysError::InvalidAddress.errno(), axerrno::LinuxError::EFAULT.code());
    assert_eq!(SysError::OwnerDied.errno(), axerrno::LinuxError::EOWNERDEAD.code());
    assert_eq!(SysError::WouldBlock.errno(), axerrno::LinuxError::from(axerrno::AxError::WouldBlock).code());
    assert_eq!(syscall_return(Ok(3)), 3);
    assert_eq!(syscall_return(Ok(-1)), -1);
    assert_eq!(syscall_return(Err(SysError::WouldBlock)), -11);
    assert_eq!(syscall_return(Err(SysError::OwnerDied)), -130);
}

#[test]
fn keys_are_deterministic() {
    assert_eq!(FutexKey::new(1, 0x1000, None), FutexKey::new(1, 0x1000, None));
    assert_eq!(FutexKey::new(1, 0x1000, None), FutexKey::new_current(1, 0x1000));
    assert_eq!(FutexKey::new_current(1, 0x1000), FutexKey::Private { process: 1, address: 0x1000 });
    assert_ne!(FutexKey::new(1, 0x1000, None), FutexKey::new(2, 0x1000, None));
    assert_ne!(FutexKey::new(1, 0x1000, None), FutexKey::new(1, 0x1004, None));
    assert!(!FutexKey::new(1, 0x1000, None).is_shared());
}

#[test]
fn shared_keys_collapse_across_processes() {
    let here = SharedBacking { region: 9, start: 0x4000 };
    let there = SharedBacking { region: 9, start: 0x9000 };
    let k1 = FutexKey::new(1, 0x4010, Some(here));
    let k2 = FutexKey::new(2, 0x9010, Some(there));
    assert_eq!(k1, k2);
    assert_eq!(k1, FutexKey::Shared { region: 9, offset: 0x10 });
    assert!(k1.is_shared());
    assert_ne!(k1, FutexKey::new(2, 0x9014, Some(there)));
    assert_ne!(k1, FutexKey::new(1, 0x4010, Some(SharedBacking { region: 8, start: 0x4000 })));
    assert_ne!(k1, FutexKey::new(1, 0x4010, None));
    // a backing that starts above the address does not hold it
    assert_eq!(
        FutexKey::new(1, 0x3000, Some(here)),
        FutexKey::Private { process: 1, address: 0x3000 }
    );
}

#[test]
fn wait_with_changed_value_would_block_without_suspension() {
    let mut mem = memory();
    let mut table = FutexTable::new();
    store_u32(&mut mem, A, 5);
    let r = sys_futex(&mut table, &mut mem, PID, 1, A, FUTEX_WAIT, 4, 0, 0, 0);
    assert_eq!(failure(r), SysError::WouldBlock);
    assert!(!table.contains(key(A)));
    assert_eq!(table.waiters(key(A)), 0);
    assert!(!table.is_waiting(key(A), 1));
    let r = sys_futex(&mut table, &mut mem, PID, 1, A, FUTEX_WAIT_BITSET, 4, 0, 0, MASK_ALL);
    assert_eq!(failure(r), SysError::WouldBlock);
    assert!(!table.contains(key(A)));
}

#[test]
fn wait_with_matching_value_queues_the_caller() {
    let mut mem = memory();
    let mut table = FutexTable::new();
    store_u32(&mut mem, A, 0xdead_beef);
    wait(&mut table, &mut mem, 1, A, 0xdead_beef);
    assert!(table.contains(key(A)));
    assert!(table.is_waiting(key(A), 1));
    assert_eq!(table.waiters(key(A)), 1);
    assert!(!table.owner_dead(key(A)));
}

#[test]
fn wait_on_bad_address_fails() {
    let mut mem = memory();
    let mut table = FutexTable::new();
    for addr in [0usize, 8, A + 1, A + 2, 3 * PAGE, usize::MAX - 3] {
        let r = sys_futex(&mut table, &mut mem, PID, 1, addr, FUTEX_WAIT, 0, 0, 0, 0);
        assert_eq!(failure(r), SysError::InvalidAddress);
        assert!(!table.contains(key(addr)));
    }
}

#[test]
fn wait_reads_and_checks_the_time_limit() {
    let mut mem = memory();
    let mut table = FutexTable::new();
    store_u32(&mut mem, A, 1);
    let ts = 2 * PAGE;
    store_i64(&mut mem, ts, 3);
    store_i64(&mut mem, ts + 8, 500_000_000);
    assert_eq!(read_timespec(&mut mem, ts), Ok(Timespec { tv_sec: 3, tv_nsec: 500_000_000 }));
    match sys_futex(&mut table, &mut mem, PID, 1, A, FUTEX_WAIT, 1, ts, 0, 0) {
        Ok(FutexOutcome::Suspend { timeout }) => {
            assert_eq!(timeout, Some(TimeValue { secs: 3, nanos: 500_000_000 }))
        }
        _ => panic!("the wait should have queued the caller"),
    }
    // a nanosecond field of a full second is rejected, and nobody is queued
    store_i64(&mut mem, ts + 8, 1_000_000_000);
    let r = sys_futex(&mut table, &mut mem, PID, 2, A, FUTEX_WAIT, 1, ts, 0, 0);
    assert_eq!(failure(r), SysError::InvalidArgument);
    store_i64(&mut mem, ts + 8, -1);
    let r = sys_futex(&mut table, &mut mem, PID, 2, A, FUTEX_WAIT, 1, ts, 0, 0);
    assert_eq!(failure(r), SysError::InvalidArgument);
    store_i64(&mut mem, ts + 8, 0);
    store_i64(&mut mem, ts, -5);
    let r = sys_futex(&mut table, &mut mem, PID, 2, A, FUTEX_WAIT, 1, ts, 0, 0);
    assert_eq!(failure(r), SysError::InvalidArgument);
    // an unreadable or misaligned time limit is a bad address
    let r = sys_futex(&mut table, &mut mem, PID, 2, A, FUTEX_WAIT, 1, 3 * PAGE, 0, 0);
    assert_eq!(failure(r), SysError::InvalidAddress);
    let r = sys_futex(&mut table, &mut mem, PID, 2, A, FUTEX_WAIT, 1, ts + 4, 0, 0);
    assert_eq!(failure(r), SysError::InvalidAddress);
    assert!(!table.is_waiting(key(A), 2));
    assert_eq!(table.waiters(key(A)), 1);
}

#[test]
fn wake_one_of_two_wakes_the_earliest() {
    let mut mem = memory();
    let mut table = FutexTable::new();
    store_u32(&mut mem, A, 0);
    wait(&mut table, &mut mem, 11, A, 0);
    wait(&mut table, &mut mem, 22, A, 0);
    let (woken, count) =
        done(sys_futex(&mut table, &mut mem, PID, 99, A, FUTEX_WAKE, 1, 0, 0, 0));
    assert_eq!(woken, vec![11]);
    assert_eq!(count, 1);
    assert!(!table.is_waiting(key(A), 11));
    assert!(table.is_waiting(key(A), 22));
    assert_eq!(futex_wait_finish(&mut table, key(A), 11), Ok(0));
    assert!(table.is_waiting(key(A), 22));
}

#[test]
fn wake_without_waiters_returns_zero() {
    let mut mem = memory();
    let mut table = FutexTable::new();
    let (woken, count) =
        done(sys_futex(&mut table, &mut mem, PID, 99, A, FUTEX_WAKE, 10, 0, 0, 0));
    assert!(woken.is_empty());
    assert_eq!(count, 0);
    assert!(!table.contains(key(A)));
    // the address of a wake is not looked at
    let (woken, count) =
        done(sys_futex(&mut table, &mut mem, PID, 99, 3, FUTEX_WAKE, u32::MAX, 0, 0, 0));
    assert!(woken.is_empty());
    assert_eq!(count, 0);
}

#[test]
fn wake_is_filtered_by_mask_and_bounded() {
    let mut mem = memory();
    let mut table = FutexTable::new();
    store_u32(&mut mem, A, 0);
    for (thread, mask) in [(1u64, 0b0001u32), (2, 0b0010), (3, 0b0011), (4, 0b0100), (5, 0b0001)] {
        match sys_futex(&mut table, &mut mem, PID, thread, A, FUTEX_WAIT_BITSET, 0, 0, 0, mask) {
            Ok(FutexOutcome::Suspend { timeout: None }) => {}
            _ => panic!("the wait should have queued the caller"),
        }
    }
    let (woken, count) =
        done(sys_futex(&mut table, &mut mem, PID, 9, A, FUTEX_WAKE_BITSET, 2, 0, 0, 0b0001));
    assert_eq!(woken, vec![1, 3]);
    assert_eq!(count, 2);
    let (woken, _) =
        done(sys_futex(&mut table, &mut mem, PID, 9, A, FUTEX_WAKE_BITSET, 5, 0, 0, 0b1000));
    assert!(woken.is_empty());
    assert_eq!(table.waiters(key(A)), 3);
    let (woken, _) =
        done(sys_futex(&mut table, &mut mem, PID, 9, A, FUTEX_WAKE_BITSET, 0, 0, 0, MASK_ALL));
    assert!(woken.is_empty());
    let (woken, count) = done(sys_futex(&mut table, &mut mem, PID, 9, A, FUTEX_WAKE, 7, 0, 0, 0));
    assert_eq!(woken, vec![2, 4, 5]);
    assert_eq!(count, 3);
    assert_eq!(table.waiters(key(A)), 0);
}

#[test]
fn option_flags_do_not_change_the_command() {
    let mut mem = memory();
    let mut table = FutexTable::new();
    store_u32(&mut mem, A, 0);
    let private_wait = FUTEX_WAIT | linux::FUTEX_PRIVATE_FLAG;
    assert_eq!(private_wait, linux::FUTEX_WAIT_PRIVATE);
    match sys_futex(&mut table, &mut mem, PID, 1, A, private_wait, 0, 0, 0, 0) {
        Ok(FutexOutcome::Suspend { .. }) => {}
        _ => panic!("the wait should have queued the caller"),
    }
    let wake = FUTEX_WAKE | linux::FUTEX_PRIVATE_FLAG | linux::FUTEX_CLOCK_REALTIME;
    let (woken, _) = done(sys_futex(&mut table, &mut mem, PID, 2, A, wake, 1, 0, 0, 0));
    assert_eq!(woken, vec![1]);
}

#[test]
fn unknown_command_is_unsupported() {
    let mut mem = memory();
    let mut table = FutexTable::new();
    for op in [2u32, 5, 6, 7, 8, 11, 12, 13, 0x7f, linux::FUTEX_LOCK_PI, linux::FUTEX_WAKE_OP] {
        let r = sys_futex(&mut table, &mut mem, PID, 1, A, op, 0, 0, 0, 0);
        assert_eq!(failure(r), SysError::Unsupported);
    }
}

#[test]
fn cmp_requeue_wakes_one_and_moves_the_rest() {
    let mut mem = memory();
    let mut table = FutexTable::new();
    store_u32(&mut mem, A, 77);
    wait(&mut table, &mut mem, 1, A, 77);
    wait(&mut table, &mut mem, 2, A, 77);
    wait(&mut table, &mut mem, 3, A, 77);
    let (woken, count) =
        done(sys_futex(&mut table, &mut mem, PID, 9, A, FUTEX_CMP_REQUEUE, 1, 5, B, 77));
    assert_eq!(woken, vec![1]);
    assert_eq!(count, 3);
    assert_eq!(table.waiters(key(A)), 0);
    assert_eq!(table.waiters(key(B)), 2);
    assert!(table.is_waiting(key(B), 2));
    assert!(table.is_waiting(key(B), 3));
    let (woken, count) = done(sys_futex(&mut table, &mut mem, PID, 9, B, FUTEX_WAKE, 5, 0, 0, 0));
    assert_eq!(woken, vec![2, 3]);
    assert_eq!(count, 2);
    assert_eq!(table.waiters(key(B)), 0);
}

#[test]
fn cmp_requeue_with_changed_value_touches_nothing() {
    let mut mem = memory();
    let mut table = FutexTable::new();
    store_u32(&mut mem, A, 77);
    wait(&mut table, &mut mem, 1, A, 77);
    wait(&mut table, &mut mem, 2, A, 77);
    let r = sys_futex(&mut table, &mut mem, PID, 9, A, FUTEX_CMP_REQUEUE, 1, 5, B, 78);
    assert_eq!(failure(r), SysError::WouldBlock);
    assert_eq!(table.waiters(key(A)), 2);
    assert!(!table.contains(key(B)));
    // the plain requeue does not look at the word
    store_u32(&mut mem, A, 1);
    let (woken, count) =
        done(sys_futex(&mut table, &mut mem, PID, 9, A, FUTEX_REQUEUE, 0, 1, B, 78));
    assert!(woken.is_empty());
    assert_eq!(count, 1);
    assert!(table.is_waiting(key(B), 1));
    assert!(table.is_waiting(key(A), 2));
}

#[test]
fn requeue_rejects_negative_counts() {
    let mut mem = memory();
    let mut table = FutexTable::new();
    store_u32(&mut mem, A, 0);
    wait(&mut table, &mut mem, 1, A, 0);
    let r = sys_futex(&mut table, &mut mem, PID, 9, A, FUTEX_REQUEUE, 0x8000_0000, 1, B, 0);
    assert_eq!(failure(r), SysError::InvalidArgument);
    let r = sys_futex(&mut table, &mut mem, PID, 9, A, FUTEX_REQUEUE, 1, 0x8000_0000, B, 0);
    assert_eq!(failure(r), SysError::InvalidArgument);
    let r = sys_futex(&mut table, &mut mem, PID, 9, A, FUTEX_CMP_REQUEUE, u32::MAX, 1, B, 0);
    assert_eq!(failure(r), SysError::InvalidArgument);
    assert_eq!(table.waiters(key(A)), 1);
    assert!(!table.contains(key(B)));
    assert_eq!(assert_unsigned(0x7fff_ffff), Ok(0x7fff_ffff));
    assert_eq!(assert_unsigned(0x8000_0000), Err(SysError::InvalidArgument));
    assert_eq!(assert_unsigned(0), Ok(0));
    // only the low 32 bits of the fourth argument count
    let (_, count) = done(sys_futex(
        &mut table,
        &mut mem,
        PID,
        9,
        A,
        FUTEX_REQUEUE,
        0,
        0x1_0000_0001,
        B,
        0,
    ));
    assert_eq!(count, 1);
}

#[test]
fn requeue_creates_the_target_even_without_source() {
    let mut mem = memory();
    let mut table = FutexTable::new();
    let (woken, count) =
        done(sys_futex(&mut table, &mut mem, PID, 9, A, FUTEX_REQUEUE, 1, 1, B, 0));
    assert!(woken.is_empty());
    assert_eq!(count, 0);
    assert!(!table.contains(key(A)));
    assert!(table.contains(key(B)));
}

#[test]
fn requeued_waiter_is_woken_on_the_target() {
    let mut mem = memory();
    let mut table = FutexTable::new();
    store_u32(&mut mem, A, 0);
    store_u32(&mut mem, B, 0);
    wait(&mut table, &mut mem, 5, B, 0);
    wait(&mut table, &mut mem, 1, A, 0);
    wait(&mut table, &mut mem, 2, A, 0);
    let (woken, count) =
        done(sys_futex(&mut table, &mut mem, PID, 9, A, FUTEX_REQUEUE, 0, 1, B, 0));
    assert!(woken.is_empty());
    assert_eq!(count, 1);
    // thread 1 now stands behind thread 5 on B, thread 2 is still on A
    let (woken, _) = done(sys_futex(&mut table, &mut mem, PID, 9, B, FUTEX_WAKE, 5, 0, 0, 0));
    assert_eq!(woken, vec![5, 1]);
    assert!(table.is_waiting(key(A), 2));
    assert_eq!(futex_wait_finish(&mut table, key(A), 1), Ok(0));
}

#[test]
fn owner_death_is_reported_exactly_once() {
    let mut mem = memory();
    let mut table = FutexTable::new();
    store_u32(&mut mem, A, 0);
    wait(&mut table, &mut mem, 1, A, 0);
    wait(&mut table, &mut mem, 2, A, 0);
    table.set_owner_dead(key(A));
    assert!(table.owner_dead(key(A)));
    let (woken, _) = done(sys_futex(&mut table, &mut mem, PID, 9, A, FUTEX_WAKE, 2, 0, 0, 0));
    assert_eq!(woken, vec![1, 2]);
    assert_eq!(futex_wait_finish(&mut table, key(A), 1), Err(SysError::OwnerDied));
    assert!(!table.owner_dead(key(A)));
    assert_eq!(futex_wait_finish(&mut table, key(A), 2), Ok(0));
    assert_eq!(futex_wait_finish(&mut table, key(A), 1), Ok(0));
}

#[test]
fn owner_death_on_unknown_key_is_not_recorded() {
    let mut table = FutexTable::new();
    table.set_owner_dead(key(A));
    assert!(!table.contains(key(A)));
    assert!(!table.owner_dead(key(A)));
    assert_eq!(futex_wait_finish(&mut table, key(A), 1), Ok(0));
}

#[test]
fn timed_out_waiter_removes_itself_only() {
    let mut mem = memory();
    let mut table = FutexTable::new();
    store_u32(&mut mem, A, 0);
    wait(&mut table, &mut mem, 1, A, 0);
    wait(&mut table, &mut mem, 2, A, 0);
    wait(&mut table, &mut mem, 3, A, 0);
    table.set_owner_dead(key(A));
    assert_eq!(futex_wait_finish(&mut table, key(A), 2), Err(SysError::TimedOut));
    assert!(table.owner_dead(key(A)));
    assert!(table.is_waiting(key(A), 1));
    assert!(!table.is_waiting(key(A), 2));
    assert!(table.is_waiting(key(A), 3));
    let (woken, _) = done(sys_futex(&mut table, &mut mem, PID, 9, A, FUTEX_WAKE, 9, 0, 0, 0));
    assert_eq!(woken, vec![1, 3]);
}

#[test]
fn timed_out_waiter_is_found_after_requeue() {
    let mut mem = memory();
    let mut table = FutexTable::new();
    store_u32(&mut mem, A, 0);
    wait(&mut table, &mut mem, 1, A, 0);
    let _ = done(sys_futex(&mut table, &mut mem, PID, 9, A, FUTEX_REQUEUE, 0, 1, B, 0));
    assert!(table.is_waiting(key(B), 1));
    assert_eq!(futex_wait_finish(&mut table, key(A), 1), Err(SysError::TimedOut));
    assert!(!table.is_waiting(key(B), 1));
    assert_eq!(table.waiters(key(B)), 0);
}

#[test]
fn processes_do_not_share_private_futexes() {
    let mut mem = memory();
    let mut table = FutexTable::new();
    store_u32(&mut mem, A, 0);
    wait(&mut table, &mut mem, 1, A, 0);
    let (woken, _) = done(sys_futex(&mut table, &mut mem, PID + 1, 9, A, FUTEX_WAKE, 1, 0, 0, 0));
    assert!(woken.is_empty());
    assert!(table.is_waiting(FutexKey::new_current(PID, A), 1));
    let shared = FutexKey::Shared { region: 3, offset: 16 };
    match sys_futex_keyed(&mut table, &mut mem, 4, shared, shared, A, FUTEX_WAIT, 0, 0, 0) {
        Ok(FutexOutcome::Suspend { .. }) => {}
        _ => panic!("the wait should have queued the caller"),
    }
    let (woken, _) =
        done(sys_futex_keyed(&mut table, &mut mem, 9, shared, shared, B, FUTEX_WAKE, 1, 0, 0));
    assert_eq!(woken, vec![4]);
}

#[test]
fn wait_queue_alone() {
    let mut q = WaitQueue::new();
    assert!(q.is_empty());
    assert!(!q.wait_if(1, MASK_ALL, || false));
    assert!(q.is_empty());
    assert!(q.wait_if(1, MASK_ALL, || true));
    // the value changes between the first look and the second
    let calls = std::cell::Cell::new(0);
    let flipping = || {
        calls.set(calls.get() + 1);
        calls.get() == 1
    };
    assert!(!q.wait_if(2, MASK_ALL, flipping));
    assert_eq!(calls.get(), 2);
    assert_eq!(q.len(), 1);
    q.enqueue(3, 0b10);
    q.enqueue(4, 0);
    assert_eq!(q.get(0), Some(Waiter { thread: 1, mask: MASK_ALL }));
    assert_eq!(q.get(2), Some(Waiter { thread: 4, mask: 0 }));
    assert_eq!(q.get(3), None);
    assert!(q.contains(3));
    assert!(!q.contains(2));
    // a waiter with an empty mask listens to nothing, but can be moved
    assert_eq!(threads(&q.wake(10, MASK_ALL)), vec![1, 3]);
    assert_eq!(q.len(), 1);
    let mut target = WaitQueue::new();
    target.enqueue(8, 1);
    assert_eq!(q.requeue(0, &mut target), 0);
    assert_eq!(q.requeue(5, &mut target), 1);
    assert_eq!(q.len(), 0);
    assert_eq!(target.get(1), Some(Waiter { thread: 4, mask: 0 }));
    assert!(target.remove(8));
    assert!(!target.remove(8));
    assert_eq!(target.len(), 1);
}

#[test]
fn futex_object_alone() {
    let mut futex = Futex::new();
    assert_eq!(futex.waiters(), 0);
    assert!(!futex.take_owner_dead());
    futex.set_owner_dead();
    assert!(futex.take_owner_dead());
    assert!(!futex.take_owner_dead());
}

#[test]
fn table_get_or_insert() {
    let mut table = FutexTable::new();
    assert!(!table.contains(key(A)));
    table.get_or_insert(key(A));
    assert!(table.contains(key(A)));
    assert!(table.wait_if(key(A), 1, 0b1, || true));
    table.get_or_insert(key(A));
    assert_eq!(table.waiters(key(A)), 1);
    assert!(!table.wait_if(key(B), 2, 0b1, || false));
    assert!(table.contains(key(B)));
    assert_eq!(table.waiters(key(B)), 0);
    assert_eq!(threads(&table.wake(key(A), 1, 0b10)), Vec::<u64>::new());
    assert_eq!(threads(&table.wake(key(A), 1, 0b11)), vec![1]);
    let (woken, moved) = table.requeue(key(A), key(A), 1, 1);
    assert!(woken.is_empty());
    assert_eq!(moved, 0);
}

#[test]
fn requeue_onto_the_same_key_rotates() {
    let mut table = FutexTable::new();
    assert!(table.wait_if(key(A), 1, 1, || true));
    assert!(table.wait_if(key(A), 2, 1, || true));
    assert!(table.wait_if(key(A), 3, 1, || true));
    let (woken, moved) = table.requeue(key(A), key(A), 1, 1);
    assert_eq!(threads(&woken), vec![1]);
    assert_eq!(moved, 1);
    assert_eq!(threads(&table.wake(key(A), 9, MASK_ALL)), vec![3, 2]);
}

#[test]
fn words_in_memory() {
    let mut mem = memory();
    store_u32(&mut mem, A, 0x0102_0304);
    assert!(!word_is(&mem, A, 0x0102_0304));
    assert_eq!(read_word(&mut mem, A), Ok(0x0102_0304));
    assert!(word_is(&mem, A, 0x0102_0304));
    assert!(!word_is(&mem, A, 0x0102_0305));
    assert!(!word_is(&mem, usize::MAX - 2, 0));
    assert_eq!(read_word(&mut mem, A + 2), Err(SysError::InvalidAddress));
    assert_eq!(read_word(&mut mem, 0), Err(SysError::InvalidAddress));
}

#[test]
fn robust_list_registration() {
    let mut list = RobustList::new();
    assert_eq!(list.robust_list_head(), 0);
    assert_eq!(sys_set_robust_list(&mut list, 0x5000, 23), Err(SysError::InvalidArgument));
    assert_eq!(list.robust_list_head(), 0);
    assert_eq!(sys_set_robust_list(&mut list, 0x5000, 24), Ok(0));
    assert_eq!(list.robust_list_head(), 0x5000);
    let mut mem = memory();
    assert_eq!(sys_get_robust_list(&mut mem, &list, A, B), Ok(0));
    let head: Vec<u8> = (0..8).map(|i| mem.peek(A + i).unwrap()).collect();
    let size: Vec<u8> = (0..8).map(|i| mem.peek(B + i).unwrap()).collect();
    assert_eq!(head, 0x5000u64.to_le_bytes().to_vec());
    assert_eq!(size, 24u64.to_le_bytes().to_vec());
    assert_eq!(sys_get_robust_list(&mut mem, &list, 4, B), Err(SysError::InvalidAddress));
    list.set_robust_list_head(0x1234_5678_9abc);
    assert_eq!(sys_get_robust_list(&mut mem, &list, A, 3 * PAGE), Err(SysError::InvalidAddress));
    let head: Vec<u8> = (0..8).map(|i| mem.peek(A + i).unwrap()).collect();
    assert_eq!(head, 0x1234_5678_9abcu64.to_le_bytes().to_vec());
}
