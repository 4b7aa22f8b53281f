//! The wait queue of a futex: the blocked waiters in the order in which
//! they arrived, each with the mask of wake-ups it listens to.

use vstd::prelude::*;

verus! {

/// The mask that listens to, or wakes, everything.
pub const MASK_ALL: u32 = 0xffff_ffff;

/// A blocked thread and the mask of the wake-ups that it listens to.
#[derive(Clone, Copy, Debug, PartialEq, Eq, Structural)]
pub struct Waiter {
    pub thread: u64,
    pub mask: u32,
}

/// A wake-up with `mask` concerns the waiter: the two masks share a bit.
pub open spec fn spec_eligible(waiter: Waiter, mask: u32) -> bool {
    waiter.mask & mask != 0
}

/// The waiters that a wake-up of at most `count` waiters with `mask`
/// releases, in the order in which they arrived: the first `count` of
/// those that the wake-up concerns.
pub open spec fn spec_woken(queue: Seq<Waiter>, count: nat, mask: u32) -> Seq<Waiter>
    decreases queue.len(),
{
    if queue.len() == 0 || count == 0 {
        Seq::empty()
    } else if spec_eligible(queue[0], mask) {
        seq![queue[0]] + spec_woken(queue.drop_first(), (count - 1) as nat, mask)
    } else {
        spec_woken(queue.drop_first(), count, mask)
    }
}

/// The waiters that stay blocked after a wake-up of at most `count` waiters
/// with `mask`, in their old order.
pub open spec fn spec_remaining(queue: Seq<Waiter>, count: nat, mask: u32) -> Seq<Waiter>
    decreases queue.len(),
{
    if queue.len() == 0 {
        Seq::empty()
    } else if count == 0 {
        queue
    } else if spec_eligible(queue[0], mask) {
        spec_remaining(queue.drop_first(), (count - 1) as nat, mask)
    } else {
        seq![queue[0]] + spec_remaining(queue.drop_first(), count, mask)
    }
}

/// The queue without the waiters of `thread`, the others in their old
/// order.
pub open spec fn spec_without(queue: Seq<Waiter>, thread: u64) -> Seq<Waiter>
    decreases queue.len(),
{
    if queue.len() == 0 {
        Seq::empty()
    } else if queue[0].thread == thread {
        spec_without(queue.drop_first(), thread)
    } else {
        seq![queue[0]] + spec_without(queue.drop_first(), thread)
    }
}

/// `thread` waits in the queue.
pub open spec fn spec_waits(queue: Seq<Waiter>, thread: u64) -> bool {
    exists|i: int| 0 <= i < queue.len() && (#[trigger] queue[i]).thread == thread
}

/// How many waiters a requeue of at most `count` moves.
pub open spec fn spec_moved(queue: Seq<Waiter>, count: nat) -> nat {
    if count <= queue.len() {
        count
    } else {
        queue.len()
    }
}

/// A wake-up splits the queue: every waiter is either woken or remains,
/// and no more than `count` are woken.
pub proof fn lemma_wake_partitions(queue: Seq<Waiter>, count: nat, mask: u32)
    ensures
        spec_woken(queue, count, mask).len() + spec_remaining(queue, count, mask).len()
            == queue.len(),
        spec_woken(queue, count, mask).len() <= count,
        forall|i: int|
            0 <= i < spec_woken(queue, count, mask).len() ==> spec_eligible(
                #[trigger] spec_woken(queue, count, mask)[i],
                mask,
            ),
    decreases queue.len(),
{
    if queue.len() == 0 || count == 0 {
    } else if spec_eligible(queue[0], mask) {
        lemma_wake_partitions(queue.drop_first(), (count - 1) as nat, mask);
    } else {
        lemma_wake_partitions(queue.drop_first(), count, mask);
    }
}

/// A wake-up that concerns none of the waiters wakes nobody and leaves the
/// queue as it is.
pub proof fn lemma_wake_without_match(queue: Seq<Waiter>, count: nat, mask: u32)
    requires
        forall|i: int| 0 <= i < queue.len() ==> !spec_eligible(#[trigger] queue[i], mask),
    ensures
        spec_woken(queue, count, mask).len() == 0,
        spec_remaining(queue, count, mask) == queue,
    decreases queue.len(),
{
    if queue.len() == 0 || count == 0 {
    } else {
        let rest = queue.drop_first();
        assert forall|i: int| 0 <= i < rest.len() implies !spec_eligible(
            #[trigger] rest[i],
            mask,
        ) by {
            assert(rest[i] == queue[i + 1]);
        }
        lemma_wake_without_match(rest, count, mask);
        assert(seq![queue[0]] + rest =~= queue);
    }
}

/// Every waiter with a mask other than zero listens to a wake-up with the
/// mask of all bits.
pub proof fn lemma_mask_all(waiter: Waiter)
    ensures
        spec_eligible(waiter, MASK_ALL) <==> waiter.mask != 0,
{
    let m = waiter.mask;
    assert(m & 0xffff_ffffu32 == m) by (bit_vector);
}

/// Waking one waiter with the mask of all bits releases exactly the waiter
/// that arrived first, and everyone behind stays blocked, in order.
pub proof fn lemma_wake_one_is_earliest(queue: Seq<Waiter>)
    requires
        queue.len() > 0,
        queue[0].mask != 0,
    ensures
        spec_woken(queue, 1, MASK_ALL) == seq![queue[0]],
        spec_remaining(queue, 1, MASK_ALL) == queue.drop_first(),
{
    lemma_mask_all(queue[0]);
    let rest = queue.drop_first();
    assert(spec_woken(rest, 0, MASK_ALL) =~= Seq::<Waiter>::empty());
    assert(spec_remaining(rest, 0, MASK_ALL) =~= rest);
    assert(seq![queue[0]] + Seq::<Waiter>::empty() =~= seq![queue[0]]);
}

/// Removing a thread that does not wait changes nothing; after a removal
/// the thread waits no more.
pub proof fn lemma_without(queue: Seq<Waiter>, thread: u64)
    ensures
        !spec_waits(queue, thread) ==> spec_without(queue, thread) == queue,
        !spec_waits(spec_without(queue, thread), thread),
        spec_without(queue, thread).len() <= queue.len(),
        spec_waits(queue, thread) ==> spec_without(queue, thread).len() < queue.len(),
    decreases queue.len(),
{
    if queue.len() == 0 {
    } else {
        let rest = queue.drop_first();
        lemma_without(rest, thread);
        let out = spec_without(queue, thread);
        if !spec_waits(queue, thread) {
            assert(queue[0].thread != thread);
            assert(!spec_waits(rest, thread)) by {
                if spec_waits(rest, thread) {
                    let i = choose|i: int| 0 <= i < rest.len() && (#[trigger] rest[i]).thread == thread;
                    assert(queue[i + 1].thread == thread);
                }
            }
            assert(seq![queue[0]] + rest =~= queue);
        }
        if spec_waits(out, thread) {
            let i = choose|i: int| 0 <= i < out.len() && (#[trigger] out[i]).thread == thread;
            if queue[0].thread == thread {
                assert(spec_waits(spec_without(rest, thread), thread));
            } else {
                assert(i > 0);
                assert(spec_without(rest, thread)[i - 1].thread == thread);
                assert(spec_waits(spec_without(rest, thread), thread));
            }
        }
        if spec_waits(queue, thread) && queue[0].thread != thread {
            let i = choose|i: int| 0 <= i < queue.len() && (#[trigger] queue[i]).thread == thread;
            assert(rest[i - 1].thread == thread);
            assert(spec_waits(rest, thread));
        }
    }
}

/// The waiters blocked on one futex, earliest first.
pub struct WaitQueue {
    waiters: Vec<Waiter>,
}

impl View for WaitQueue {
    type V = Seq<Waiter>;

    closed spec fn view(&self) -> Seq<Waiter> {
        self.waiters@
    }
}

impl WaitQueue {
    /// An empty queue.
    pub fn new() -> (queue: WaitQueue)
        ensures
            queue@ == Seq::<Waiter>::empty(),
    {
        WaitQueue { waiters: Vec::new() }
    }

    /// Number of blocked waiters.
    pub fn len(&self) -> (n: usize)
        ensures
            n == self@.len(),
    {
        self.waiters.len()
    }

    /// Whether nobody waits.
    pub fn is_empty(&self) -> (empty: bool)
        ensures
            empty == (self@.len() == 0),
    {
        self.waiters.len() == 0
    }

    /// The waiter at position `index`, counted from the earliest.
    pub fn get(&self, index: usize) -> (waiter: Option<Waiter>)
        ensures
            waiter == if index < self@.len() {
                Some(self@[index as int])
            } else {
                None
            },
    {
        if index < self.waiters.len() {
            Some(self.waiters[index])
        } else {
            None
        }
    }

    /// Whether `thread` waits in the queue.
    pub fn contains(&self, thread: u64) -> (found: bool)
        ensures
            found == spec_waits(self@, thread),
    {
        let mut i: usize = 0;
        while i < self.waiters.len()
            invariant
                i <= self.waiters.len(),
                forall|j: int| 0 <= j < i ==> (#[trigger] self.waiters@[j]).thread != thread,
            decreases self.waiters.len() - i,
        {
            if self.waiters[i].thread == thread {
                return true;
            }
            i = i + 1;
        }
        false
    }

    /// Puts `thread` at the end of the queue, listening to `mask`.
    pub fn enqueue(&mut self, thread: u64, mask: u32)
        ensures
            final(self)@ == old(self)@.push(Waiter { thread, mask }),
    {
        self.waiters.push(Waiter { thread, mask });
    }

    /// Decides whether `thread` has to block.
    ///
    /// `recheck` tells whether the watched value still asks for a wait. It
    /// is asked first with the queue untouched: a "no" ends the call at
    /// once. Otherwise the thread is put at the end of the queue and
    /// `recheck` is asked again, which catches a change of the value that
    /// slipped in before the thread was queued: on "no" the thread leaves
    /// the queue again. Only when both answers are "yes" does the thread
    /// stay queued and the call return `true`: the caller then suspends the
    /// thread until it is woken, requeued or timed out.
    pub fn wait_if<F: Fn() -> bool>(&mut self, thread: u64, mask: u32, recheck: F) -> (suspend: bool)
        requires
            call_requires(recheck, ()),
        ensures
            suspend ==> final(self)@ == old(self)@.push(Waiter { thread, mask }),
            suspend ==> call_ensures(recheck, (), true),
            !suspend ==> final(self)@ == old(self)@,
            !suspend ==> call_ensures(recheck, (), false),
    {
        if !recheck() {
            return false;
        }
        self.waiters.push(Waiter { thread, mask });
        if !recheck() {
            self.waiters.pop();
            assert(self.waiters@ =~= old(self).waiters@);
            return false;
        }
        true
    }

    /// Wakes at most `max_count` of the waiters that listen to `mask`,
    /// earliest first, and returns them in that order. Everyone else stays
    /// blocked, in the old order.
    pub fn wake(&mut self, max_count: usize, mask: u32) -> (woken: Vec<Waiter>)
        ensures
            woken@ == spec_woken(old(self)@, max_count as nat, mask),
            final(self)@ == spec_remaining(old(self)@, max_count as nat, mask),
    {
        let ghost queue = self.waiters@;
        let mut woken: Vec<Waiter> = Vec::new();
        let mut rest: Vec<Waiter> = Vec::new();
        let mut i: usize = 0;
        proof {
            assert(queue.skip(0) =~= queue);
        }
        while i < self.waiters.len()
            invariant
                i <= self.waiters.len(),
                self.waiters@ == queue,
                woken@.len() <= max_count,
                woken@.len() <= i,
                spec_woken(queue, max_count as nat, mask) == woken@ + spec_woken(
                    queue.skip(i as int),
                    (max_count - woken@.len()) as nat,
                    mask,
                ),
                spec_remaining(queue, max_count as nat, mask) == rest@ + spec_remaining(
                    queue.skip(i as int),
                    (max_count - woken@.len()) as nat,
                    mask,
                ),
            decreases self.waiters.len() - i,
        {
            let waiter = self.waiters[i];
            let ghost tail = queue.skip(i as int);
            let ghost left = (max_count - woken@.len()) as nat;
            proof {
                assert(tail[0] == waiter);
                assert(tail.drop_first() =~= queue.skip(i + 1));
            }
            if woken.len() < max_count && (waiter.mask & mask) != 0 {
                proof {
                    assert(woken@ + (seq![waiter] + spec_woken(
                        tail.drop_first(),
                        (left - 1) as nat,
                        mask,
                    )) =~= woken@.push(waiter) + spec_woken(
                        tail.drop_first(),
                        (left - 1) as nat,
                        mask,
                    ));
                }
                woken.push(waiter);
            } else {
                proof {
                    if left == 0 {
                        assert(spec_remaining(tail, left, mask) == tail);
                        assert(spec_remaining(tail.drop_first(), left, mask) == tail.drop_first())
                            by {
                            if tail.drop_first().len() == 0 {
                                assert(tail.drop_first() =~= Seq::<Waiter>::empty());
                            }
                        }
                        assert(tail =~= seq![waiter] + tail.drop_first());
                        assert(spec_woken(tail, left, mask) =~= spec_woken(
                            tail.drop_first(),
                            left,
                            mask,
                        ));
                    }
                    assert(rest@ + (seq![waiter] + spec_remaining(tail.drop_first(), left, mask))
                        =~= rest@.push(waiter) + spec_remaining(tail.drop_first(), left, mask));
                }
                rest.push(waiter);
            }
            i = i + 1;
        }
        proof {
            assert(queue.skip(i as int) =~= Seq::<Waiter>::empty());
            assert(woken@ + Seq::<Waiter>::empty() =~= woken@);
            assert(rest@ + Seq::<Waiter>::empty() =~= rest@);
        }
        self.waiters = rest;
        woken
    }

    /// Moves at most `max_count` waiters, earliest first, to the end of
    /// `target` without waking them, and returns how many were moved.
    pub fn requeue(&mut self, max_count: usize, target: &mut WaitQueue) -> (moved: usize)
        ensures
            moved == spec_moved(old(self)@, max_count as nat),
            final(self)@ == old(self)@.skip(moved as int),
            final(target)@ == old(target)@ + old(self)@.take(moved as int),
    {
        let ghost queue = self.waiters@;
        let count: usize = if max_count <= self.waiters.len() {
            max_count
        } else {
            self.waiters.len()
        };
        let mut rest: Vec<Waiter> = Vec::new();
        let mut i: usize = 0;
        proof {
            assert(old(target)@ + queue.take(0) =~= old(target)@);
        }
        while i < self.waiters.len()
            invariant
                i <= self.waiters.len(),
                count <= self.waiters.len(),
                self.waiters@ == queue,
                i <= count ==> rest@.len() == 0 && target@ == old(target)@ + queue.take(i as int),
                i > count ==> target@ == old(target)@ + queue.take(count as int),
                i > count ==> rest@ == queue.subrange(count as int, i as int),
            decreases self.waiters.len() - i,
        {
            let waiter = self.waiters[i];
            if i < count {
                target.waiters.push(waiter);
                assert(target@ =~= old(target)@ + queue.take(i + 1));
            } else {
                rest.push(waiter);
                assert(rest@ =~= queue.subrange(count as int, i + 1));
            }
            i = i + 1;
        }
        proof {
            if i <= count {
                assert(queue.skip(count as int) =~= Seq::<Waiter>::empty());
            } else {
                assert(queue.subrange(count as int, i as int) =~= queue.skip(count as int));
            }
        }
        self.waiters = rest;
        count
    }

    /// Takes `thread` out of the queue, as a timed-out waiter does for
    /// itself, and tells whether it was waiting. Nobody else is disturbed.
    pub fn remove(&mut self, thread: u64) -> (removed: bool)
        ensures
            removed == spec_waits(old(self)@, thread),
            final(self)@ == spec_without(old(self)@, thread),
    {
        let ghost queue = self.waiters@;
        let mut rest: Vec<Waiter> = Vec::new();
        let mut removed: bool = false;
        let mut i: usize = 0;
        proof {
            assert(queue.skip(0) =~= queue);
        }
        while i < self.waiters.len()
            invariant
                i <= self.waiters.len(),
                self.waiters@ == queue,
                spec_without(queue, thread) == rest@ + spec_without(queue.skip(i as int), thread),
                removed == exists|j: int| 0 <= j < i && (#[trigger] queue[j]).thread == thread,
            decreases self.waiters.len() - i,
        {
            let waiter = self.waiters[i];
            let ghost tail = queue.skip(i as int);
            proof {
                assert(tail[0] == waiter);
                assert(tail.drop_first() =~= queue.skip(i + 1));
            }
            if waiter.thread == thread {
                removed = true;
            } else {
                proof {
                    assert(rest@ + (seq![waiter] + spec_without(tail.drop_first(), thread))
                        =~= rest@.push(waiter) + spec_without(tail.drop_first(), thread));
                }
                rest.push(waiter);
            }
            i = i + 1;
        }
        proof {
            assert(queue.skip(i as int) =~= Seq::<Waiter>::empty());
            assert(rest@ + Seq::<Waiter>::empty() =~= rest@);
        }
        self.waiters = rest;
        removed
    }
}

} // verus!
