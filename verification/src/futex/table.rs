//! Futex objects and the table that finds them by key.
//!
//! A table may serve every key namespace at once: private keys carry their
//! process, shared keys their region. An entry comes into being with the
//! first wait on its key and stays for as long as the table lives.

use crate::errno::SysError;
use crate::futex::key::FutexKey;
use crate::futex::queue::{
    spec_moved, spec_remaining, spec_waits, spec_without, spec_woken, WaitQueue, Waiter, MASK_ALL,
};
use vstd::prelude::*;

verus! {

/// A futex as the contracts see it: who waits on it, earliest first, and
/// whether the death of a lock owner is still to be reported.
pub struct FutexView {
    pub waiters: Seq<Waiter>,
    pub owner_dead: bool,
}

/// A futex: a wait queue and the owner-death flag.
pub struct Futex {
    wq: WaitQueue,
    owner_dead: bool,
}

impl View for Futex {
    type V = FutexView;

    closed spec fn view(&self) -> FutexView {
        FutexView { waiters: self.wq@, owner_dead: self.owner_dead }
    }
}

/// A futex that nobody waits on, with no death to report.
pub open spec fn spec_fresh() -> FutexView {
    FutexView { waiters: Seq::empty(), owner_dead: false }
}

impl Futex {
    /// A futex that nobody waits on, with no death to report.
    pub fn new() -> (futex: Futex)
        ensures
            futex@ == spec_fresh(),
    {
        Futex { wq: WaitQueue::new(), owner_dead: false }
    }

    /// Number of threads blocked on the futex.
    pub fn waiters(&self) -> (n: usize)
        ensures
            n == self@.waiters.len(),
    {
        self.wq.len()
    }

    /// Records that the owner of the lock behind the futex has died.
    pub fn set_owner_dead(&mut self)
        ensures
            final(self)@ == (FutexView { owner_dead: true, ..old(self)@ }),
    {
        self.owner_dead = true;
    }

    /// Reads the owner-death flag and clears it in one step.
    pub fn take_owner_dead(&mut self) -> (dead: bool)
        ensures
            dead == old(self)@.owner_dead,
            final(self)@ == (FutexView { owner_dead: false, ..old(self)@ }),
    {
        let dead = self.owner_dead;
        self.owner_dead = false;
        dead
    }
}

/// The table with an entry for `key`: as it is where the key is known,
/// with a fresh futex added where it is not.
pub open spec fn spec_ensure(table: Map<FutexKey, FutexView>, key: FutexKey) -> Map<
    FutexKey,
    FutexView,
> {
    if table.contains_key(key) {
        table
    } else {
        table.insert(key, spec_fresh())
    }
}

/// The table after `waiter` has been queued on `key`.
pub open spec fn spec_enqueue(
    table: Map<FutexKey, FutexView>,
    key: FutexKey,
    waiter: Waiter,
) -> Map<FutexKey, FutexView> {
    let known = spec_ensure(table, key);
    known.insert(key, FutexView { waiters: known[key].waiters.push(waiter), ..known[key] })
}

/// The waiters that a wake-up on `key` releases: none where the key is
/// unknown.
pub open spec fn spec_wake_result(
    table: Map<FutexKey, FutexView>,
    key: FutexKey,
    count: nat,
    mask: u32,
) -> Seq<Waiter> {
    if table.contains_key(key) {
        spec_woken(table[key].waiters, count, mask)
    } else {
        Seq::empty()
    }
}

/// The table after a wake-up on `key`. A wake-up creates no entry.
pub open spec fn spec_wake_table(
    table: Map<FutexKey, FutexView>,
    key: FutexKey,
    count: nat,
    mask: u32,
) -> Map<FutexKey, FutexView> {
    if table.contains_key(key) {
        table.insert(
            key,
            FutexView { waiters: spec_remaining(table[key].waiters, count, mask), ..table[key] },
        )
    } else {
        table
    }
}

/// The waiters on `from` that a requeue leaves to be moved: those that
/// its wake-up, which concerns every mask, does not release.
pub open spec fn spec_requeue_left(
    table: Map<FutexKey, FutexView>,
    from: FutexKey,
    wake_count: nat,
) -> Seq<Waiter> {
    if table.contains_key(from) {
        spec_remaining(table[from].waiters, wake_count, MASK_ALL)
    } else {
        Seq::empty()
    }
}

/// The table after a requeue from `from` to `to`: the target has an entry;
/// the source, where it is known, has lost the waiters that were woken and
/// the first `max_count` of the others, and these stand, still blocked and
/// in their order, at the end of the target's queue.
pub open spec fn spec_requeue_table(
    table: Map<FutexKey, FutexView>,
    from: FutexKey,
    to: FutexKey,
    wake_count: nat,
    max_count: nat,
) -> Map<FutexKey, FutexView> {
    let known = spec_ensure(table, to);
    if table.contains_key(from) {
        let left = spec_requeue_left(table, from, wake_count);
        let moved = spec_moved(left, max_count);
        let taken = known.insert(
            from,
            FutexView { waiters: left.skip(moved as int), ..known[from] },
        );
        taken.insert(
            to,
            FutexView { waiters: taken[to].waiters + left.take(moved as int), ..taken[to] },
        )
    } else {
        known
    }
}

/// `thread` waits on some futex of the table.
pub open spec fn spec_waits_anywhere(table: Map<FutexKey, FutexView>, thread: u64) -> bool {
    exists|key: FutexKey| #[trigger]
        table.contains_key(key) && spec_waits(table[key].waiters, thread)
}

/// The table with `thread` taken out of every queue.
pub open spec fn spec_dequeue(table: Map<FutexKey, FutexView>, thread: u64) -> Map<
    FutexKey,
    FutexView,
> {
    Map::new(
        |key: FutexKey| table.contains_key(key),
        |key: FutexKey|
            FutexView { waiters: spec_without(table[key].waiters, thread), ..table[key] },
    )
}

/// How the wait of `thread`, begun on `key`, ends when the thread runs
/// again. A thread that still stands in a queue was not woken: its time
/// ran out. A thread that was woken is told of the owner's death where the
/// flag of its futex is set, and otherwise returns normally.
pub open spec fn spec_finish_result(
    table: Map<FutexKey, FutexView>,
    key: FutexKey,
    thread: u64,
) -> Result<(), SysError> {
    if spec_waits_anywhere(table, thread) {
        Err(SysError::TimedOut)
    } else if table.contains_key(key) && table[key].owner_dead {
        Err(SysError::OwnerDied)
    } else {
        Ok(())
    }
}

/// The table after the wait of `thread`, begun on `key`, has ended: a
/// timed-out thread has left every queue and nothing else has changed; a
/// woken thread has consumed the owner-death flag of its futex.
pub open spec fn spec_finish_table(
    table: Map<FutexKey, FutexView>,
    key: FutexKey,
    thread: u64,
) -> Map<FutexKey, FutexView> {
    if spec_waits_anywhere(table, thread) {
        spec_dequeue(table, thread)
    } else if table.contains_key(key) {
        table.insert(key, FutexView { owner_dead: false, ..table[key] })
    } else {
        table
    }
}

/// The table after the death of the owner of the lock behind `key` has
/// been recorded. Nothing is recorded for a key without an entry.
pub open spec fn spec_owner_died(table: Map<FutexKey, FutexView>, key: FutexKey) -> Map<
    FutexKey,
    FutexView,
> {
    if table.contains_key(key) {
        table.insert(key, FutexView { owner_dead: true, ..table[key] })
    } else {
        table
    }
}

struct Entry {
    key: FutexKey,
    futex: Futex,
}

/// The futexes of one or more key namespaces, found by key.
pub struct FutexTable {
    entries: Vec<Entry>,
}

impl View for FutexTable {
    type V = Map<FutexKey, FutexView>;

    closed spec fn view(&self) -> Map<FutexKey, FutexView> {
        Map::new(|key: FutexKey| self.has(key), |key: FutexKey| self.entries@[self.index_of(key)].futex@)
    }
}

impl FutexTable {
    /// No key has two entries.
    pub closed spec fn wf(&self) -> bool {
        forall|i: int, j: int|
            0 <= i < j < self.entries@.len() ==> (#[trigger] self.entries@[i]).key
                != (#[trigger] self.entries@[j]).key
    }

    spec fn has(&self, key: FutexKey) -> bool {
        exists|i: int| 0 <= i < self.entries@.len() && (#[trigger] self.entries@[i]).key == key
    }

    spec fn index_of(&self, key: FutexKey) -> int {
        choose|i: int| 0 <= i < self.entries@.len() && (#[trigger] self.entries@[i]).key == key
    }

    proof fn lemma_entry(&self, i: int)
        requires
            self.wf(),
            0 <= i < self.entries@.len(),
        ensures
            self.has(self.entries@[i].key),
            self.index_of(self.entries@[i].key) == i,
            self@.contains_key(self.entries@[i].key),
            self@[self.entries@[i].key] == self.entries@[i].futex@,
    {
        let key = self.entries@[i].key;
        let j = self.index_of(key);
        assert(self.entries@[j].key == key);
    }

    /// An empty table.
    pub fn new() -> (table: FutexTable)
        ensures
            table.wf(),
            table@ == Map::<FutexKey, FutexView>::empty(),
    {
        let table = FutexTable { entries: Vec::new() };
        assert(table@ =~= Map::<FutexKey, FutexView>::empty());
        table
    }

    fn find(&self, key: FutexKey) -> (found: Option<usize>)
        requires
            self.wf(),
        ensures
            match found {
                Some(i) => i < self.entries@.len() && self.entries@[i as int].key == key
                    && self@.contains_key(key) && self@[key] == self.entries@[i as int].futex@,
                None => !self@.contains_key(key),
            },
    {
        let mut i: usize = 0;
        while i < self.entries.len()
            invariant
                i <= self.entries@.len(),
                self.wf(),
                forall|j: int| 0 <= j < i ==> (#[trigger] self.entries@[j]).key != key,
            decreases self.entries@.len() - i,
        {
            if self.entries[i].key == key {
                proof {
                    self.lemma_entry(i as int);
                }
                return Some(i);
            }
            i = i + 1;
        }
        None
    }

    /// Whether the table has a futex for `key`.
    pub fn contains(&self, key: FutexKey) -> (known: bool)
        requires
            self.wf(),
        ensures
            known == self@.contains_key(key),
    {
        self.find(key).is_some()
    }

    /// Number of threads blocked on `key`; zero where the key is unknown.
    pub fn waiters(&self, key: FutexKey) -> (n: usize)
        requires
            self.wf(),
        ensures
            n == if self@.contains_key(key) {
                self@[key].waiters.len()
            } else {
                0
            },
    {
        match self.find(key) {
            Some(i) => self.entries[i].futex.waiters(),
            None => 0,
        }
    }

    /// Whether `thread` is blocked on `key`.
    pub fn is_waiting(&self, key: FutexKey, thread: u64) -> (waiting: bool)
        requires
            self.wf(),
        ensures
            waiting == (self@.contains_key(key) && spec_waits(self@[key].waiters, thread)),
    {
        match self.find(key) {
            Some(i) => self.entries[i].futex.wq.contains(thread),
            None => false,
        }
    }

    /// Whether an owner's death is still to be reported on `key`.
    pub fn owner_dead(&self, key: FutexKey) -> (dead: bool)
        requires
            self.wf(),
        ensures
            dead == (self@.contains_key(key) && self@[key].owner_dead),
    {
        match self.find(key) {
            Some(i) => self.entries[i].futex.owner_dead,
            None => false,
        }
    }

    fn slot(&mut self, key: FutexKey) -> (i: usize)
        requires
            old(self).wf(),
        ensures
            final(self).wf(),
            final(self)@ == spec_ensure(old(self)@, key),
            i < final(self).entries@.len(),
            final(self).entries@[i as int].key == key,
            final(self)@[key] == final(self).entries@[i as int].futex@,
    {
        match self.find(key) {
            Some(i) => i,
            None => {
                let ghost before = *self;
                let i = self.entries.len();
                self.entries.push(Entry { key, futex: Futex::new() });
                proof {
                    assert forall|a: int, b: int|
                        0 <= a < b < self.entries@.len() implies (#[trigger] self.entries@[a]).key
                        != (#[trigger] self.entries@[b]).key by {
                        if b == i {
                            assert(before.entries@[a].key != key);
                        } else {
                            assert(before.entries@[a].key != before.entries@[b].key);
                        }
                    }
                    self.lemma_entry(i as int);
                    assert forall|k: FutexKey| #[trigger]
                        self@.contains_key(k) == spec_ensure(before@, key).contains_key(k) by {
                        if before.has(k) {
                            let j = before.index_of(k);
                            assert(self.entries@[j].key == k);
                        }
                        if self.has(k) && k != key {
                            let j = self.index_of(k);
                            assert(before.entries@[j].key == k);
                        }
                    }
                    assert forall|k: FutexKey| #[trigger]
                        self@.contains_key(k) implies self@[k] == spec_ensure(before@, key)[k] by {
                        if k != key {
                            let j = self.index_of(k);
                            assert(before.entries@[j].key == k);
                            before.lemma_entry(j);
                            self.lemma_entry(j);
                        }
                    }
                    assert(self@ =~= spec_ensure(before@, key));
                }
                i
            },
        }
    }

    proof fn lemma_update(before: FutexTable, after: FutexTable, i: int)
        requires
            before.wf(),
            0 <= i < before.entries@.len(),
            after.entries@.len() == before.entries@.len(),
            forall|j: int|
                0 <= j < before.entries@.len() ==> (#[trigger] after.entries@[j]).key
                    == before.entries@[j].key,
            forall|j: int|
                0 <= j < before.entries@.len() && j != i ==> (#[trigger] after.entries@[j]).futex@
                    == before.entries@[j].futex@,
        ensures
            after.wf(),
            after@ == before@.insert(before.entries@[i].key, after.entries@[i].futex@),
    {
        let key = before.entries@[i].key;
        assert forall|a: int, b: int| 0 <= a < b < after.entries@.len() implies (
        #[trigger] after.entries@[a]).key != (#[trigger] after.entries@[b]).key by {
            assert(before.entries@[a].key != before.entries@[b].key);
        }
        let target = before@.insert(key, after.entries@[i].futex@);
        assert forall|k: FutexKey| #[trigger] after@.contains_key(k) == target.contains_key(k) by {
            if before.has(k) {
                let j = before.index_of(k);
                assert(after.entries@[j].key == k);
            }
            if after.has(k) {
                let j = after.index_of(k);
                assert(before.entries@[j].key == k);
            }
            before.lemma_entry(i);
        }
        assert forall|k: FutexKey| #[trigger] after@.contains_key(k) implies after@[k] == target[k] by {
            let j = after.index_of(k);
            after.lemma_entry(j);
            before.lemma_entry(j);
        }
        assert(after@ =~= target);
    }

    /// Makes sure that the table has a futex for `key`.
    pub fn get_or_insert(&mut self, key: FutexKey)
        requires
            old(self).wf(),
        ensures
            final(self).wf(),
            final(self)@ == spec_ensure(old(self)@, key),
    {
        let _ = self.slot(key);
    }
    /// Decides whether `thread` has to block on `key`, which gets an entry
    /// if it has none. See [`WaitQueue::wait_if`] for the part of `recheck`.
    pub fn wait_if<F: Fn() -> bool>(
        &mut self,
        key: FutexKey,
        thread: u64,
        mask: u32,
        recheck: F,
    ) -> (suspend: bool)
        requires
            old(self).wf(),
            call_requires(recheck, ()),
        ensures
            final(self).wf(),
            suspend ==> final(self)@ == spec_enqueue(old(self)@, key, Waiter { thread, mask }),
            suspend ==> call_ensures(recheck, (), true),
            !suspend ==> final(self)@ == spec_ensure(old(self)@, key),
            !suspend ==> call_ensures(recheck, (), false),
    {
        let i = self.slot(key);
        let ghost before = *self;
        let suspend = self.entries[i].futex.wq.wait_if(thread, mask, recheck);
        proof {
            Self::lemma_update(before, *self, i as int);
            if !suspend {
                assert(self@ =~= before@);
            }
        }
        suspend
    }

    /// Wakes at most `max_count` of the waiters on `key` that listen to
    /// `mask`, earliest first, and returns them in that order. A key
    /// without an entry has no waiters and gets no entry.
    pub fn wake(&mut self, key: FutexKey, max_count: usize, mask: u32) -> (woken: Vec<Waiter>)
        requires
            old(self).wf(),
        ensures
            final(self).wf(),
            woken@ == spec_wake_result(old(self)@, key, max_count as nat, mask),
            final(self)@ == spec_wake_table(old(self)@, key, max_count as nat, mask),
    {
        match self.find(key) {
            None => Vec::new(),
            Some(i) => {
                let ghost before = *self;
                let woken = self.entries[i].futex.wq.wake(max_count, mask);
                proof {
                    Self::lemma_update(before, *self, i as int);
                }
                woken
            },
        }
    }

    /// Wakes at most `wake_count` waiters on `from`, whatever their masks,
    /// then moves at most `max_count` of those that remain to the end of
    /// the queue of `to`, where they stay blocked. Returns the waiters that
    /// were woken and the number of those moved. The target gets an entry
    /// if it has none; a source without an entry has no waiters.
    pub fn requeue(
        &mut self,
        from: FutexKey,
        to: FutexKey,
        wake_count: usize,
        max_count: usize,
    ) -> (r: (Vec<Waiter>, usize))
        requires
            old(self).wf(),
        ensures
            final(self).wf(),
            r.0@ == spec_wake_result(old(self)@, from, wake_count as nat, MASK_ALL),
            r.1 == spec_moved(
                spec_requeue_left(old(self)@, from, wake_count as nat),
                max_count as nat,
            ),
            final(self)@ == spec_requeue_table(
                old(self)@,
                from,
                to,
                wake_count as nat,
                max_count as nat,
            ),
    {
        let target = self.slot(to);
        let ghost known = *self;
        let source = match self.find(from) {
            Some(i) => i,
            None => {
                return (Vec::new(), 0);
            },
        };
        let woken = self.entries[source].futex.wq.wake(wake_count, MASK_ALL);
        let mut moving = WaitQueue::new();
        let moved = self.entries[source].futex.wq.requeue(max_count, &mut moving);
        let ghost taken = *self;
        let ghost carried = moving@;
        proof {
            Self::lemma_update(known, taken, source as int);
            taken.lemma_entry(target as int);
            let left = spec_requeue_left(old(self)@, from, wake_count as nat);
            assert(carried =~= left.take(moved as int));
            assert(carried.take(moved as int) =~= carried);
        }
        let _ = moving.requeue(moved, &mut self.entries[target].futex.wq);
        proof {
            Self::lemma_update(taken, *self, target as int);
        }
        (woken, moved)
    }

    /// Records that the owner of the lock behind `key` has died. Nothing is
    /// recorded for a key without an entry.
    pub fn set_owner_dead(&mut self, key: FutexKey)
        requires
            old(self).wf(),
        ensures
            final(self).wf(),
            final(self)@ == spec_owner_died(old(self)@, key),
    {
        match self.find(key) {
            None => {},
            Some(i) => {
                let ghost before = *self;
                self.entries[i].futex.set_owner_dead();
                proof {
                    Self::lemma_update(before, *self, i as int);
                }
            },
        }
    }

    fn dequeue(&mut self, thread: u64) -> (removed: bool)
        requires
            old(self).wf(),
        ensures
            final(self).wf(),
            removed == spec_waits_anywhere(old(self)@, thread),
            final(self)@ == spec_dequeue(old(self)@, thread),
    {
        let ghost before = *self;
        let mut removed: bool = false;
        let mut i: usize = 0;
        while i < self.entries.len()
            invariant
                before.wf(),
                i <= self.entries@.len(),
                self.entries@.len() == before.entries@.len(),
                forall|j: int|
                    0 <= j < self.entries@.len() ==> (#[trigger] self.entries@[j]).key
                        == before.entries@[j].key,
                forall|j: int|
                    0 <= j < i ==> (#[trigger] self.entries@[j]).futex@ == (FutexView {
                        waiters: spec_without(before.entries@[j].futex@.waiters, thread),
                        ..before.entries@[j].futex@
                    }),
                forall|j: int|
                    i <= j < self.entries@.len() ==> (#[trigger] self.entries@[j]).futex@
                        == before.entries@[j].futex@,
                removed == exists|j: int|
                    0 <= j < i && spec_waits((#[trigger] before.entries@[j]).futex@.waiters, thread),
            decreases self.entries@.len() - i,
        {
            let ghost step = *self;
            if self.entries[i].futex.wq.remove(thread) {
                removed = true;
            }
            proof {
                assert forall|j: int| 0 <= j < self.entries@.len() implies (
                #[trigger] self.entries@[j]).key == before.entries@[j].key by {
                    assert(step.entries@[j].key == before.entries@[j].key);
                }
            }
            i = i + 1;
        }
        proof {
            assert forall|a: int, b: int| 0 <= a < b < self.entries@.len() implies (
            #[trigger] self.entries@[a]).key != (#[trigger] self.entries@[b]).key by {
                assert(before.entries@[a].key != before.entries@[b].key);
            }
            let target = spec_dequeue(before@, thread);
            assert forall|k: FutexKey| #[trigger] self@.contains_key(k) == target.contains_key(k) by {
                if before.has(k) {
                    let j = before.index_of(k);
                    assert(self.entries@[j].key == k);
                }
                if self.has(k) {
                    let j = self.index_of(k);
                    assert(before.entries@[j].key == k);
                }
            }
            assert forall|k: FutexKey| #[trigger] self@.contains_key(k) implies self@[k]
                == target[k] by {
                let j = self.index_of(k);
                self.lemma_entry(j);
                before.lemma_entry(j);
            }
            assert(self@ =~= target);
            if removed {
                let j = choose|j: int|
                    0 <= j < i && spec_waits((#[trigger] before.entries@[j]).futex@.waiters, thread);
                before.lemma_entry(j);
            }
            if spec_waits_anywhere(before@, thread) {
                let k = choose|k: FutexKey| #[trigger]
                    before@.contains_key(k) && spec_waits(before@[k].waiters, thread);
                let j = before.index_of(k);
                before.lemma_entry(j);
            }
        }
        removed
    }

    /// Ends the wait of `thread` that began on `key`, at the moment the
    /// thread runs again.
    ///
    /// A thread that still stands in a queue, of `key` or of the key that it
    /// was requeued to, was not woken: its time ran out. It leaves the
    /// queue, nobody else is disturbed, and the owner-death flag stays for
    /// the next waiter. A thread that was woken consumes the owner-death
    /// flag of its futex: it is told of the death once, and the flag is
    /// cleared in the same step.
    pub fn finish_wait(&mut self, key: FutexKey, thread: u64) -> (r: Result<(), SysError>)
        requires
            old(self).wf(),
        ensures
            final(self).wf(),
            r == spec_finish_result(old(self)@, key, thread),
            final(self)@ == spec_finish_table(old(self)@, key, thread),
    {
        if self.dequeue(thread) {
            return Err(SysError::TimedOut);
        }
        proof {
            assert(self@ =~= old(self)@) by {
                assert forall|k: FutexKey| #[trigger] old(self)@.contains_key(k) implies self@[k]
                    == old(self)@[k] by {
                    crate::futex::queue::lemma_without(old(self)@[k].waiters, thread);
                    assert(!spec_waits(old(self)@[k].waiters, thread));
                }
            }
        }
        match self.find(key) {
            None => Ok(()),
            Some(i) => {
                let ghost before = *self;
                let dead = self.entries[i].futex.take_owner_dead();
                proof {
                    Self::lemma_update(before, *self, i as int);
                }
                if dead {
                    Err(SysError::OwnerDied)
                } else {
                    Ok(())
                }
            },
        }
    }
}

} // verus!
