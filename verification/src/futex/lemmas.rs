//! What holds of the futex operations across calls.

use crate::errno::SysError;
use crate::futex::key::FutexKey;
use crate::futex::op::{
    spec_command, spec_sys_futex, spec_sys_futex_table, FUTEX_WAIT, FUTEX_WAIT_BITSET,
};
use crate::futex::queue::{spec_waits, Waiter};
use crate::futex::table::{
    spec_enqueue, spec_finish_result, spec_finish_table, spec_owner_died, spec_waits_anywhere,
    FutexView,
};
use crate::mm::space::SpaceView;
use crate::mm::word::spec_read_word;
use vstd::prelude::*;

verus! {

/// A wait on a word that no longer holds the expected value fails with
/// `WouldBlock` at once: the caller is not queued, so nothing is there to
/// suspend, and the table is as before.
pub proof fn lemma_wait_on_changed_word(
    table: Map<FutexKey, FutexView>,
    view: SpaceView,
    thread: u64,
    key: FutexKey,
    key2: FutexKey,
    uaddr: usize,
    futex_op: u32,
    value: u32,
    timeout: usize,
    value3: u32,
)
    requires
        spec_command(futex_op) == FUTEX_WAIT || spec_command(futex_op) == FUTEX_WAIT_BITSET,
        spec_read_word(view, uaddr as int) matches Ok(word) && word != value,
    ensures
        spec_sys_futex(table, view, key, uaddr, futex_op, value, timeout, value3)
            == Err::<crate::futex::op::OutcomeView, SysError>(SysError::WouldBlock),
        spec_sys_futex_table(
            table,
            view,
            thread,
            key,
            key2,
            uaddr,
            futex_op,
            value,
            timeout,
            value3,
        ) == table,
{
}

/// Changing the owner-death flag of a futex changes nobody's place in any
/// queue.
proof fn lemma_flag_keeps_waiters(
    table: Map<FutexKey, FutexView>,
    key: FutexKey,
    flag: bool,
    thread: u64,
)
    requires
        table.contains_key(key),
    ensures
        spec_waits_anywhere(table.insert(key, FutexView { owner_dead: flag, ..table[key] }), thread)
            == spec_waits_anywhere(table, thread),
{
    let changed = table.insert(key, FutexView { owner_dead: flag, ..table[key] });
    if spec_waits_anywhere(table, thread) {
        let k = choose|k: FutexKey| #[trigger]
            table.contains_key(k) && spec_waits(table[k].waiters, thread);
        assert(changed.contains_key(k) && spec_waits(changed[k].waiters, thread));
    }
    if spec_waits_anywhere(changed, thread) {
        let k = choose|k: FutexKey| #[trigger]
            changed.contains_key(k) && spec_waits(changed[k].waiters, thread);
        assert(table.contains_key(k) && spec_waits(table[k].waiters, thread));
    }
}

/// The death of a lock owner is reported exactly once. Once it has been
/// recorded on a futex, the first woken thread that ends its wait there is
/// told of it; the next one, with the flag not set again, returns
/// normally.
pub proof fn lemma_owner_death_reported_once(
    table: Map<FutexKey, FutexView>,
    key: FutexKey,
    first: u64,
    second: u64,
)
    requires
        table.contains_key(key),
        !spec_waits_anywhere(table, first),
        !spec_waits_anywhere(table, second),
    ensures
        ({
            let recorded = spec_owner_died(table, key);
            let told = spec_finish_table(recorded, key, first);
            &&& spec_finish_result(recorded, key, first) == Err::<(), SysError>(SysError::OwnerDied)
            &&& !told[key].owner_dead
            &&& told[key].waiters == table[key].waiters
            &&& spec_finish_result(told, key, second) == Ok::<(), SysError>(())
        }),
{
    let recorded = spec_owner_died(table, key);
    lemma_flag_keeps_waiters(table, key, true, first);
    let told = spec_finish_table(recorded, key, first);
    assert(told == recorded.insert(key, FutexView { owner_dead: false, ..recorded[key] }));
    lemma_flag_keeps_waiters(table, key, true, second);
    lemma_flag_keeps_waiters(recorded, key, false, second);
}

/// A wait that times out takes the thread out of its queue and leaves the
/// owner-death flag for the next waiter.
pub proof fn lemma_timeout_keeps_owner_death(
    table: Map<FutexKey, FutexView>,
    key: FutexKey,
    thread: u64,
)
    requires
        table.contains_key(key),
        spec_waits_anywhere(table, thread),
    ensures
        spec_finish_result(table, key, thread) == Err::<(), SysError>(SysError::TimedOut),
        spec_finish_table(table, key, thread).contains_key(key),
        spec_finish_table(table, key, thread)[key].owner_dead == table[key].owner_dead,
        !spec_waits_anywhere(spec_finish_table(table, key, thread), thread),
{
    let after = spec_finish_table(table, key, thread);
    if spec_waits_anywhere(after, thread) {
        let k = choose|k: FutexKey| #[trigger]
            after.contains_key(k) && spec_waits(after[k].waiters, thread);
        crate::futex::queue::lemma_without(table[k].waiters, thread);
    }
}

/// A thread that has been queued by a wait stands at the end of the queue
/// of its futex, behind everyone who was there before.
pub proof fn lemma_enqueue_is_last(table: Map<FutexKey, FutexView>, key: FutexKey, waiter: Waiter)
    ensures
        spec_enqueue(table, key, waiter).contains_key(key),
        spec_enqueue(table, key, waiter)[key].waiters.last() == waiter,
        table.contains_key(key) ==> spec_enqueue(table, key, waiter)[key].waiters.drop_last()
            == table[key].waiters,
        !table.contains_key(key) ==> spec_enqueue(table, key, waiter)[key].waiters == seq![waiter],
{
    if table.contains_key(key) {
        assert(spec_enqueue(table, key, waiter)[key].waiters.drop_last() =~= table[key].waiters);
    } else {
        assert(spec_enqueue(table, key, waiter)[key].waiters =~= seq![waiter]);
    }
}

} // verus!
