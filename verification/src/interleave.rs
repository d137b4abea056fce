use vstd::prelude::*;

use crate::word::LockWord;

verus! {

/// Where one thread of the model stands in its single pass through the
/// critical section.
#[derive(Clone, Copy)]
pub enum Phase {
    /// Still trying to acquire: its next step is a compare-and-swap on the
    /// lock word. While the word is held elsewhere the attempt fails and
    /// the thread stays here — that failed step is a spin, a backoff sleep,
    /// a kernel wait or a park, depending on the variant, and the schedule
    /// below ranges over every way those waits can interleave.
    Trying,
    /// Inside the critical section: the unique holder of the lock word.
    Holding,
    /// Finished: it has updated the shared data and released the lock.
    Done,
}

/// The word-protocol model under an arbitrary interleaving.
///
/// A collection of threads share one lock word, one counter and one append
/// log. Each thread acquires the lock once, increments the counter by one,
/// appends its own identity to the log, releases, and stops. Which thread
/// moves next is entirely up to the caller-supplied schedule, so anything
/// proved of every run of [`System::step`] holds under every interleaving
/// of the real threads — the steps are exactly the atomic instructions of
/// the protocol, the only granularity at which real interleaving occurs.
///
/// This is the safety argument shared by all the lock variants in this
/// crate: they differ in how a thread waits, never in the word protocol,
/// and waiting only shapes the schedule. The invariant carries mutual
/// exclusion (at most one holder, and the word reads locked exactly while
/// a holder exists), and from it follows that no update is lost: once all
/// threads are done the counter has grown by exactly one per thread and
/// the log holds every identity exactly once.
pub struct System {
    word: LockWord,
    base: u64,
    counter: u64,
    log: Vec<u64>,
    phases: Vec<Phase>,
}

/// How many of the threads have finished their pass.
pub open spec fn done_count(ph: Seq<Phase>) -> nat
    decreases ph.len(),
{
    if ph.len() == 0 {
        0
    } else {
        done_count(ph.drop_last()) + if ph.last() is Done {
            1nat
        } else {
            0nat
        }
    }
}

proof fn lemma_done_count_none(ph: Seq<Phase>)
    requires
        forall|k: int| 0 <= k < ph.len() ==> !(ph[k] is Done),
    ensures
        done_count(ph) == 0,
    decreases ph.len(),
{
    if ph.len() > 0 {
        lemma_done_count_none(ph.drop_last());
    }
}

proof fn lemma_done_count_all(ph: Seq<Phase>)
    requires
        forall|k: int| 0 <= k < ph.len() ==> ph[k] is Done,
    ensures
        done_count(ph) == ph.len(),
    decreases ph.len(),
{
    if ph.len() > 0 {
        lemma_done_count_all(ph.drop_last());
    }
}

proof fn lemma_done_count_le_len(ph: Seq<Phase>)
    ensures
        done_count(ph) <= ph.len(),
    decreases ph.len(),
{
    if ph.len() > 0 {
        lemma_done_count_le_len(ph.drop_last());
    }
}

proof fn lemma_done_count_update(ph: Seq<Phase>, t: int, v: Phase)
    requires
        0 <= t < ph.len(),
    ensures
        done_count(ph.update(t, v)) == done_count(ph) - (if ph[t] is Done {
            1int
        } else {
            0int
        }) + (if v is Done {
            1int
        } else {
            0int
        }),
    decreases ph.len(),
{
    let ph2 = ph.update(t, v);
    if t == ph.len() - 1 {
        assert(ph2.drop_last() =~= ph.drop_last());
    } else {
        assert(ph2.drop_last() =~= ph.drop_last().update(t, v));
        lemma_done_count_update(ph.drop_last(), t, v);
    }
}

impl System {
    /// The number of threads in the model.
    pub closed spec fn thread_count(&self) -> nat {
        self.phases@.len()
    }

    /// Where thread `t` stands.
    pub closed spec fn phase(&self, t: int) -> Phase {
        self.phases@[t]
    }

    /// The counter's starting value.
    pub closed spec fn start(&self) -> u64 {
        self.base
    }

    /// The shared counter all threads increment.
    pub closed spec fn total(&self) -> u64 {
        self.counter
    }

    /// The shared log: the identities of the finished threads in the order
    /// in which they passed through the critical section.
    pub closed spec fn history(&self) -> Seq<u64> {
        self.log@
    }

    /// Whether the lock word currently reads as locked.
    pub closed spec fn locked(&self) -> bool {
        self.word.is_locked()
    }

    /// The protocol invariant, preserved by every step under every
    /// schedule:
    /// the word reads locked exactly while some thread holds the lock and
    /// at most one thread ever does; the counter equals the start plus the
    /// number of finished threads; and the log names exactly the finished
    /// threads, each once.
    pub closed spec fn inv(&self) -> bool {
        &&& self.base + self.phases@.len() <= u64::MAX
        &&& self.counter == self.base + done_count(self.phases@)
        &&& self.log@.len() == done_count(self.phases@)
        &&& forall|t: int|
            0 <= t < self.phases@.len() ==> (self.phases@[t] is Done <==> self.log@.contains(
                t as u64,
            ))
        &&& self.log@.no_duplicates()
        &&& forall|t1: int, t2: int|
            0 <= t1 < self.phases@.len() && 0 <= t2 < self.phases@.len() && self.phases@[t1]
                is Holding && self.phases@[t2] is Holding ==> t1 == t2
        &&& self.word.is_locked() <==> exists|t: int|
            0 <= t < self.phases@.len() && self.phases@[t] is Holding
    }

    /// A fresh model: `thread_count` threads, all still to run, an unlocked
    /// word and the counter at `base`. The bound on `base` keeps the final
    /// count representable.
    pub fn new(base: u64, thread_count: usize) -> (s: System)
        requires
            base + thread_count <= u64::MAX,
        ensures
            s.inv(),
            s.start() == base,
            s.thread_count() == thread_count,
            s.total() == base,
            s.history() == Seq::<u64>::empty(),
            forall|t: int| 0 <= t < thread_count ==> s.phase(t) is Trying,
    {
        let mut phases: Vec<Phase> = Vec::new();
        let mut i: usize = 0;
        while i < thread_count
            invariant
                i <= thread_count,
                phases@.len() == i,
                forall|k: int| 0 <= k < i ==> phases@[k] is Trying,
            decreases thread_count - i,
        {
            phases.push(Phase::Trying);
            i += 1;
        }
        proof {
            lemma_done_count_none(phases@);
        }
        System { word: LockWord::new_unlocked(), base, counter: base, log: Vec::new(), phases }
    }

    /// The number of threads, for drivers iterating a schedule.
    pub fn threads(&self) -> (n: usize)
        ensures
            n == self.thread_count(),
    {
        self.phases.len()
    }

    /// The counter's current value.
    pub fn counter(&self) -> (c: u64)
        ensures
            c == self.total(),
    {
        self.counter
    }

    /// The log of finished threads so far, in completion order.
    pub fn log(&self) -> (l: &Vec<u64>)
        ensures
            l@ == self.history(),
    {
        &self.log
    }

    /// Whether every thread has finished its pass.
    pub fn all_done(&self) -> (r: bool)
        ensures
            r == (forall|t: int| 0 <= t < self.thread_count() ==> self.phase(t) is Done),
    {
        let mut i: usize = 0;
        while i < self.phases.len()
            invariant
                i <= self.phases.len(),
                forall|k: int| 0 <= k < i ==> self.phases@[k] is Done,
            decreases self.phases.len() - i,
        {
            let ph = self.phases[i];
            match ph {
                Phase::Done => {},
                _ => {
                    assert(!(self.phase(i as int) is Done));
                    return false;
                },
            }
            i += 1;
        }
        true
    }

    /// One atomic step of thread `tid`, the granularity at which real
    /// threads interleave: a trying thread performs its compare-and-swap
    /// and either enters the critical section or observes the word locked
    /// and keeps waiting; the holder updates the shared data and releases;
    /// a finished thread does nothing.
    ///
    /// Exactly one thread's phase can change per step, the invariant is
    /// preserved whatever `tid` the schedule picks, and a failed attempt
    /// changes nothing at all — which is why no waiting strategy, however
    /// it schedules the retries, can break the protocol.
    pub fn step(&mut self, tid: usize)
        requires
            old(self).inv(),
            tid < old(self).thread_count(),
        ensures
            final(self).inv(),
            final(self).thread_count() == old(self).thread_count(),
            final(self).start() == old(self).start(),
            forall|t: int|
                0 <= t < old(self).thread_count() && t != tid ==> final(self).phase(t) == old(
                    self,
                ).phase(t),
            old(self).phase(tid as int) is Trying && !old(self).locked() ==> final(self).phase(
                tid as int,
            ) is Holding && final(self).locked() && final(self).total() == old(self).total()
                && final(self).history() == old(self).history(),
            old(self).phase(tid as int) is Trying && old(self).locked() ==> *final(self) == *old(
                self,
            ),
            old(self).phase(tid as int) is Holding ==> final(self).phase(tid as int) is Done
                && !final(self).locked() && final(self).total() == old(self).total() + 1
                && final(self).history() == old(self).history().push(tid as u64),
            old(self).phase(tid as int) is Done ==> *final(self) == *old(self),
    {
        match self.phases[tid] {
            Phase::Trying => {
                let won = self.word.compare_exchange_acquire();
                if won {
                    self.phases.set(tid, Phase::Holding);
                    proof {
                        lemma_done_count_update(old(self).phases@, tid as int, Phase::Holding);
                        assert(self.phases@[tid as int] is Holding);
                    }
                }
            },
            Phase::Holding => {
                proof {
                    lemma_done_count_update(old(self).phases@, tid as int, Phase::Done);
                    lemma_done_count_le_len(old(self).phases@.update(tid as int, Phase::Done));
                }
                self.counter = self.counter + 1;
                self.log.push(tid as u64);
                self.phases.set(tid, Phase::Done);
                self.word.store_release_unlocked();
                proof {
                    let prior = old(self).log@;
                    let grown = self.log@;
                    assert(grown == prior.push(tid as u64));
                    assert forall|t: int|
                        0 <= t < self.phases@.len() && self.phases@[t] is Done
                        implies self.log@.contains(t as u64) by {
                        if t == tid as int {
                            assert(grown[grown.len() - 1] == tid as u64);
                        } else {
                            assert(old(self).phases@[t] is Done);
                            let w = choose|w: int| 0 <= w < prior.len() && prior[w] == t as u64;
                            assert(grown[w] == t as u64);
                        }
                    }
                }
            },
            Phase::Done => {},
        }
    }
}

/// Mutual exclusion itself: at most one thread is ever inside the critical
/// section, under every schedule — two holders would both have had to win
/// a compare-and-swap on a word the other was still holding.
pub proof fn lemma_mutual_exclusion(s: System, t1: int, t2: int)
    requires
        s.inv(),
        0 <= t1 < s.thread_count(),
        0 <= t2 < s.thread_count(),
        s.phase(t1) is Holding,
        s.phase(t2) is Holding,
    ensures
        t1 == t2,
{
}

/// No update is lost: in any run, under any schedule, once every thread
/// has finished its single increment the counter has grown by exactly one
/// per thread, and the log of completions names every thread exactly once
/// — nothing missing, nothing doubled.
pub proof fn lemma_no_lost_updates(s: System)
    requires
        s.inv(),
        forall|t: int| 0 <= t < s.thread_count() ==> s.phase(t) is Done,
    ensures
        s.total() == s.start() + s.thread_count(),
        s.history().len() == s.thread_count(),
        s.history().no_duplicates(),
        forall|t: int| 0 <= t < s.thread_count() ==> #[trigger] s.history().contains(t as u64),
{
    assert forall|t: int| 0 <= t < s.phases@.len() implies s.phases@[t] is Done by {
        assert(s.phase(t) is Done);
    }
    lemma_done_count_all(s.phases@);
    assert forall|t: int|
        0 <= t < s.thread_count() implies #[trigger] s.history().contains(t as u64) by {
        assert(s.phases@[t] is Done);
    }
}

/// The ledger balances at every moment, not only at the end: under any
/// schedule so far, the counter has grown by exactly one per completed
/// critical section, and no thread is logged twice. A lost update — two
/// threads inside the section at once, one overwriting the other — would
/// leave the counter short of the log.
pub proof fn lemma_counter_matches_history(s: System)
    requires
        s.inv(),
    ensures
        s.total() == s.start() + s.history().len(),
        s.history().no_duplicates(),
{
}

/// Drive a fresh model through `schedule`: entry after entry, the named
/// thread takes one atomic step; entries naming no thread are skipped.
/// Whatever the schedule, the invariant holds at every point in between
/// and at the end — the mutual-exclusion properties above need nothing
/// from the schedule at all.
pub fn run(base: u64, thread_count: usize, schedule: &Vec<usize>) -> (s: System)
    requires
        base + thread_count <= u64::MAX,
    ensures
        s.inv(),
        s.start() == base,
        s.thread_count() == thread_count,
{
    let mut s = System::new(base, thread_count);
    let mut i: usize = 0;
    while i < schedule.len()
        invariant
            s.inv(),
            s.start() == base,
            s.thread_count() == thread_count,
            i <= schedule.len(),
        decreases schedule.len() - i,
    {
        let tid = schedule[i];
        if tid < s.threads() {
            s.step(tid);
        }
        i += 1;
    }
    s
}

} // verus!
