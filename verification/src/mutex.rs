use vstd::prelude::*;

use crate::raw_mutex::Mutex as RawMutex;
use crate::word::LockWord;

pub use crate::safe_spin_mutex::MutexGuard;

verus! {

/// The ordered set of waiting thread identities of the fair lock: arrivals
/// append at the tail, the releaser serves from the head, and no identity
/// appears twice.
///
/// Identities are plain numbers chosen by the driver, one per thread. The
/// queue itself is not thread-safe — the fair lock keeps it behind its own
/// inner spin lock and touches it only while holding that.
pub struct WaitQueue {
    ids: Vec<u64>,
}

/// One operation the fair lock performs on its wait queue: the append of a
/// contending thread's identity (skipped when the identity is already
/// queued) or the releaser's removal of the head.
///
/// These are the only two ways the queue ever changes, a fact the contracts
/// of [`WaitQueue::enqueue_if_absent`] and [`WaitQueue::pop_front`] state
/// through [`apply_op`]; [`lemma_fifo_order`] builds on it.
pub enum QueueOp {
    /// A thread with this identity asks to wait.
    Enqueue(u64),
    /// The releaser takes the longest-waiting identity, if any.
    PopFront,
}

/// The effect of one queue operation on the queue's contents.
pub open spec fn apply_op(s: Seq<u64>, op: QueueOp) -> Seq<u64> {
    match op {
        QueueOp::Enqueue(t) => if s.contains(t) {
            s
        } else {
            s.push(t)
        },
        QueueOp::PopFront => if s.len() == 0 {
            s
        } else {
            s.drop_first()
        },
    }
}

/// The identities handed out by the pop operations of `ops`, in order,
/// starting from queue contents `s`. This is the order in which the fair
/// lock wakes waiters.
pub open spec fn pops(s: Seq<u64>, ops: Seq<QueueOp>) -> Seq<u64>
    decreases ops.len(),
{
    if ops.len() == 0 {
        Seq::empty()
    } else {
        let served = if ops[0] is PopFront && s.len() > 0 {
            seq![s[0]]
        } else {
            Seq::<u64>::empty()
        };
        served + pops(apply_op(s, ops[0]), ops.drop_first())
    }
}

impl WaitQueue {
    /// The queued identities, head first.
    pub closed spec fn waiting(&self) -> Seq<u64> {
        self.ids@
    }

    /// No identity is queued twice.
    pub open spec fn wf(&self) -> bool {
        self.waiting().no_duplicates()
    }

    /// An empty queue.
    pub fn new() -> (q: WaitQueue)
        ensures
            q.wf(),
            q.waiting() == Seq::<u64>::empty(),
    {
        WaitQueue { ids: Vec::new() }
    }

    /// How many threads are waiting.
    pub fn len(&self) -> (n: usize)
        ensures
            n == self.waiting().len(),
    {
        self.ids.len()
    }

    /// Whether `tid` is already queued.
    pub fn contains(&self, tid: u64) -> (present: bool)
        ensures
            present == self.waiting().contains(tid),
    {
        let mut i: usize = 0;
        while i < self.ids.len()
            invariant
                i <= self.ids.len(),
                forall|k: int| 0 <= k < i ==> self.ids@[k] != tid,
            decreases self.ids.len() - i,
        {
            if self.ids[i] == tid {
                assert(self.waiting()[i as int] == tid);
                return true;
            }
            i += 1;
        }
        false
    }

    /// Append `tid` at the tail unless it is already queued.
    ///
    /// This is the membership check of the contending path: a thread that
    /// was woken spuriously and runs the wait path again finds itself still
    /// queued and leaves the queue exactly as it was, so no identity ever
    /// appears twice however often its thread retries.
    pub fn enqueue_if_absent(&mut self, tid: u64) -> (was_new: bool)
        requires
            old(self).wf(),
        ensures
            final(self).wf(),
            was_new == !old(self).waiting().contains(tid),
            old(self).waiting().contains(tid) ==> *final(self) == *old(self),
            !old(self).waiting().contains(tid) ==> final(self).waiting()
                == old(self).waiting().push(tid),
            final(self).waiting().contains(tid),
            final(self).waiting() == apply_op(old(self).waiting(), QueueOp::Enqueue(tid)),
    {
        if self.contains(tid) {
            false
        } else {
            self.ids.push(tid);
            proof {
                let s = self.ids@;
                assert(s.last() == tid);
                assert(s.contains(tid));
                assert forall|i: int, j: int|
                    0 <= i < s.len() && 0 <= j < s.len() && i != j implies s[i] != s[j] by {
                    if i < s.len() - 1 && j < s.len() - 1 {
                        assert(old(self).waiting().no_duplicates());
                    }
                }
            }
            true
        }
    }

    /// Remove and return the head of the queue: the identity that has
    /// waited longest, the one the releaser wakes.
    pub fn pop_front(&mut self) -> (head: Option<u64>)
        requires
            old(self).wf(),
        ensures
            final(self).wf(),
            old(self).waiting().len() == 0 ==> head is None && *final(self) == *old(self),
            old(self).waiting().len() > 0 ==> head == Some(old(self).waiting()[0])
                && final(self).waiting() == old(self).waiting().drop_first(),
            final(self).waiting() == apply_op(old(self).waiting(), QueueOp::PopFront),
    {
        if self.ids.len() == 0 {
            None
        } else {
            let t = self.ids.remove(0);
            proof {
                assert(old(self).waiting().remove(0) =~= old(self).waiting().drop_first());
            }
            Some(t)
        }
    }
}

/// What a contending thread must do after one iteration of the fair lock's
/// acquire loop.
pub enum Contend<T> {
    /// The compare-and-swap won; the guard carries the payload.
    Acquired(MutexGuard<T>),
    /// The compare-and-swap lost and the thread's identity is now queued
    /// (it already was, if this is a retry after a spurious wake). The
    /// thread must park itself and, once resumed, run the whole loop again
    /// — being resumed never by itself means ownership.
    Parked,
}

/// The fair lock: release hands the lock to the thread that has waited
/// longest instead of letting any contender win the race.
///
/// A contending thread first tries the usual compare-and-swap on the state
/// word. On failure it takes the inner spin lock that protects the wait
/// queue, appends its identity unless it is already queued, gives the inner
/// lock back and parks. The releaser pops the head of the queue, stores the
/// word unlocked and resumes exactly that thread — a targeted wake, not a
/// broadcast. Ties among simultaneous first-time contenders fall to
/// whichever wins the race to append itself; afterwards the queue order is
/// the service order ([`lemma_fifo_order`]).
///
/// The inner queue lock is the raw spinning variant, a leaf with no queue
/// of its own, so the fairness mechanism does not depend on itself. It is
/// only ever taken for the few steps of a queue operation and given back
/// within the same step of the protocol, which is why a lock at rest holds
/// it free (`wf`).
pub struct Mutex<T> {
    word: LockWord,
    queue: RawMutex<WaitQueue>,
    slot: Option<T>,
}

impl<T> Mutex<T> {
    /// Whether the state word currently reads as locked.
    pub closed spec fn is_locked(&self) -> bool {
        self.word.is_locked()
    }

    /// The payload at rest in the lock; `None` while a guard holds it.
    pub closed spec fn stored(&self) -> Option<T> {
        self.slot
    }

    /// The payload at rest, for contracts on the unlocked state.
    pub open spec fn value(&self) -> T
        recommends
            !self.is_locked(),
    {
        self.stored()->0
    }

    /// The queued identities, head first.
    pub closed spec fn waiting(&self) -> Seq<u64> {
        self.queue.value().waiting()
    }

    /// The inner queue lock is at rest between protocol steps.
    pub closed spec fn queue_at_rest(&self) -> bool {
        !self.queue.is_locked() && self.queue.value().wf()
    }

    /// The state word agrees with the payload's location, the wait queue
    /// holds no duplicate identity, and the inner queue lock is free.
    pub open spec fn wf(&self) -> bool {
        (self.is_locked() <==> self.stored() is None) && self.queue_at_rest()
    }

    /// A fresh, unlocked lock around `value`, with nobody waiting.
    pub fn new(value: T) -> (m: Mutex<T>)
        ensures
            m.wf(),
            !m.is_locked(),
            m.value() == value,
            m.waiting() == Seq::<u64>::empty(),
    {
        Mutex {
            word: LockWord::new_unlocked(),
            queue: RawMutex::new(WaitQueue::new()),
            slot: Some(value),
        }
    }

    /// One iteration of the acquire loop for the thread with identity
    /// `tid`: try the compare-and-swap; on failure, enqueue `tid` unless it
    /// is already waiting, then park.
    ///
    /// The winning case does not touch the queue — a fresh arrival can beat
    /// the queued threads to an unlocked word; that race is the tie-break
    /// for simultaneous first contenders. The losing case performs exactly
    /// [`QueueOp::Enqueue`] on the queue under the inner lock, so queue
    /// membership is idempotent across spurious wakes and retries.
    pub fn contend(&mut self, tid: u64) -> (o: Contend<T>)
        requires
            old(self).wf(),
        ensures
            final(self).wf(),
            !old(self).is_locked() ==> o is Acquired && final(self).is_locked()
                && o->Acquired_0.value() == old(self).value()
                && final(self).waiting() == old(self).waiting(),
            old(self).is_locked() ==> o is Parked && final(self).is_locked()
                && final(self).stored() == old(self).stored()
                && final(self).waiting() == apply_op(
                old(self).waiting(),
                QueueOp::Enqueue(tid),
            ) && final(self).waiting().contains(tid),
    {
        let won = self.word.compare_exchange_acquire();
        if won {
            let data = self.slot.take();
            Contend::Acquired(MutexGuard::new(data.unwrap()))
        } else {
            let q = self.queue.lock();
            let _newly_queued = q.enqueue_if_absent(tid);
            self.queue.unlock();
            Contend::Parked
        }
    }

    /// Acquire the lock, obtaining the guard that carries the payload.
    ///
    /// The uncontended path: with the word free the first attempt wins and
    /// the queue is left alone. Under contention the driver loops through
    /// [`Mutex::contend`], parking between iterations.
    pub fn lock(&mut self) -> (g: MutexGuard<T>)
        requires
            old(self).wf(),
            !old(self).is_locked(),
        ensures
            final(self).wf(),
            final(self).is_locked(),
            g.value() == old(self).value(),
            final(self).waiting() == old(self).waiting(),
    {
        // Uncontended by precondition, so the identity handed to the loop
        // body is never queued; any value serves.
        match self.contend(0) {
            Contend::Acquired(g) => g,
            Contend::Parked => vstd::pervasive::unreached(),
        }
    }

    /// How many threads are waiting, read under the inner queue lock.
    pub fn waiters(&mut self) -> (n: usize)
        requires
            old(self).wf(),
        ensures
            final(self).wf(),
            final(self).is_locked() == old(self).is_locked(),
            final(self).stored() == old(self).stored(),
            final(self).waiting() == old(self).waiting(),
            n == old(self).waiting().len(),
    {
        let q = self.queue.lock();
        let n = q.len();
        self.queue.unlock();
        n
    }

    /// Release the lock by giving the guard back: pop the head of the wait
    /// queue under the inner lock, store the word unlocked, and tell the
    /// caller whom to resume.
    ///
    /// At most the one returned thread is woken — exactly what progress
    /// needs — and it is the identity that entered the queue earliest, so
    /// service follows arrival order. With nobody queued the store alone
    /// suffices and no thread is resumed.
    pub fn unlock(&mut self, g: MutexGuard<T>) -> (woken: Option<u64>)
        requires
            old(self).wf(),
            old(self).is_locked(),
        ensures
            final(self).wf(),
            !final(self).is_locked(),
            final(self).value() == g.value(),
            old(self).waiting().len() == 0 ==> woken is None
                && final(self).waiting() == old(self).waiting(),
            old(self).waiting().len() > 0 ==> woken == Some(old(self).waiting()[0])
                && final(self).waiting() == old(self).waiting().drop_first(),
            final(self).waiting() == apply_op(old(self).waiting(), QueueOp::PopFront),
    {
        let q = self.queue.lock();
        let woken = q.pop_front();
        self.queue.unlock();
        self.slot = Some(g.into_inner());
        self.word.store_release_unlocked();
        woken
    }
}

/// First-in, first-out hand-off of the fair lock.
///
/// `s` is the wait queue at a moment when the thread with identity `s[i]`
/// stands ahead of the one with identity `s[j]`, and `ops` is everything
/// the lock does to the queue from then on: enqueues by other contenders
/// ([`Mutex::contend`]) and pops by releasers ([`Mutex::unlock`]). As long
/// as neither of the two contends afresh, every wake of the later thread is
/// preceded by a wake of the earlier one — the releaser serves waiters in
/// the order in which they began to wait.
pub proof fn lemma_fifo_order(s: Seq<u64>, ops: Seq<QueueOp>, i: int, j: int)
    requires
        s.no_duplicates(),
        0 <= i < j < s.len(),
        forall|k: int| 0 <= k < ops.len() ==> ops[k] != (QueueOp::Enqueue(s[i])),
        forall|k: int| 0 <= k < ops.len() ==> ops[k] != (QueueOp::Enqueue(s[j])),
    ensures
        forall|k2: int|
            0 <= k2 < pops(s, ops).len() && pops(s, ops)[k2] == s[j] ==> exists|k1: int|
                0 <= k1 < k2 && pops(s, ops)[k1] == s[i],
    decreases ops.len(),
{
    if ops.len() > 0 {
        let op = ops[0];
        let rest = ops.drop_first();
        let s2 = apply_op(s, op);
        let p = pops(s, ops);
        assert forall|k: int| 0 <= k < rest.len() implies rest[k] != (QueueOp::Enqueue(
            s[i],
        )) && rest[k] != (QueueOp::Enqueue(s[j])) by {
            assert(rest[k] == ops[k + 1]);
        }
        match op {
            QueueOp::Enqueue(t) => {
                assert(t != s[i] && t != s[j]);
                if s.contains(t) {
                    assert(s2 == s);
                    lemma_fifo_order(s, rest, i, j);
                    assert(p =~= pops(s, rest));
                } else {
                    assert(s2 == s.push(t));
                    assert forall|x: int, y: int|
                        0 <= x < s2.len() && 0 <= y < s2.len() && x != y implies s2[x] != s2[y] by {
                        if x < s.len() && y < s.len() {
                        } else {
                            assert(!s.contains(t));
                        }
                    }
                    assert(s2[i] == s[i] && s2[j] == s[j]);
                    lemma_fifo_order(s2, rest, i, j);
                    assert(p =~= pops(s2, rest));
                }
            },
            QueueOp::PopFront => {
                let p2 = pops(s2, rest);
                assert(p =~= seq![s[0]] + p2);
                if i == 0 {
                    assert forall|k2: int|
                        0 <= k2 < p.len() && p[k2] == s[j] implies exists|k1: int|
                        0 <= k1 < k2 && p[k1] == s[i] by {
                        assert(s[j] != s[0]);
                        assert(p[0] == s[0]);
                        assert(k2 != 0);
                        assert(0 <= 0 < k2 && p[0] == s[i]);
                    }
                } else {
                    assert(s2 == s.drop_first());
                    assert forall|x: int, y: int|
                        0 <= x < s2.len() && 0 <= y < s2.len() && x != y implies s2[x] != s2[y] by {
                        assert(s2[x] == s[x + 1] && s2[y] == s[y + 1]);
                    }
                    assert(s2[i - 1] == s[i] && s2[j - 1] == s[j]);
                    lemma_fifo_order(s2, rest, i - 1, j - 1);
                    assert forall|k2: int|
                        0 <= k2 < p.len() && p[k2] == s[j] implies exists|k1: int|
                        0 <= k1 < k2 && p[k1] == s[i] by {
                        assert(s[j] != s[0]);
                        assert(p[0] == s[0]);
                        assert(k2 != 0);
                        assert(p2[k2 - 1] == p[k2]);
                        assert(pops(s2, rest)[k2 - 1] == s2[j - 1]);
                        let k1p = choose|k1p: int|
                            0 <= k1p < k2 - 1 && pops(s2, rest)[k1p] == s2[i - 1];
                        assert(p[k1p + 1] == p2[k1p]);
                        assert(0 <= k1p + 1 < k2 && p[k1p + 1] == s[i]);
                    }
                }
            },
        }
    }
}

} // verus!
