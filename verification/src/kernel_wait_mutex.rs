use vstd::prelude::*;

use crate::word::LockWord;

pub use crate::safe_spin_mutex::MutexGuard;

verus! {

/// The unlocked value of the state word as the kernel wait primitive sees it.
pub const UNLOCKED_WORD: u32 = 0;

/// The locked value of the state word as the kernel wait primitive sees it.
pub const LOCKED_WORD: u32 = 1;

/// What a contending thread must do after one acquisition attempt.
pub enum Attempt<T> {
    /// The compare-and-swap won; the thread holds the lock and the guard
    /// carries the payload.
    Acquired(MutexGuard<T>),
    /// The compare-and-swap lost. The thread must block on the state word,
    /// telling the kernel the value it just observed ([`LOCKED_WORD`]): the
    /// wait primitive re-checks the word against that value and goes to
    /// sleep atomically, so a wake that races with the sleep cannot be
    /// lost. After waking — possibly spuriously — the thread retries the
    /// attempt from the start.
    Block,
}

/// What the releasing thread must do after its store of the unlocked word:
/// whether to signal one blocked waiter on the state word.
pub enum ReleaseAction {
    /// Issue one wake on the word. At most one waiter resumes; if nobody is
    /// blocked the signal is a harmless no-op.
    WakeOne,
    /// Skip the signal.
    NoWake,
}

/// The blocking variant: a contending thread is put to sleep by the kernel
/// on the state word itself instead of spinning, and the releasing thread
/// wakes one sleeper.
///
/// The state machine is the two-state one of the spinning variants —
/// unlocked and locked — so a releaser cannot tell whether anyone is
/// blocked and signals unconditionally ([`ReleaseAction::WakeOne`] always).
/// A third state distinguishing "locked with waiters" would let an
/// uncontended release skip the signal; that is a performance refinement,
/// not a correctness matter, and this model keeps the simpler encoding.
///
/// Lost wakeups are excluded by the wait primitive's contract, not by this
/// state machine: the sleeper passes the word value it observed
/// ([`Attempt::Block`]), and the kernel re-checks the word against it
/// before sleeping, atomically with respect to the releaser's store.
pub struct Mutex<T> {
    word: LockWord,
    slot: Option<T>,
}

impl<T> Mutex<T> {
    /// Whether the state word currently reads as locked.
    pub closed spec fn is_locked(&self) -> bool {
        self.word.is_locked()
    }

    /// The payload at rest in the lock; `None` while a guard holds it.
    pub closed spec fn stored(&self) -> Option<T> {
        self.slot
    }

    /// The payload at rest, for contracts on the unlocked state.
    pub open spec fn value(&self) -> T
        recommends
            !self.is_locked(),
    {
        self.stored()->0
    }

    /// The state word agrees with the payload's location: locked exactly
    /// while the payload is out in a guard.
    pub open spec fn wf(&self) -> bool {
        self.is_locked() <==> self.stored() is None
    }

    /// A fresh, unlocked lock around `value`.
    pub fn new(value: T) -> (m: Mutex<T>)
        ensures
            m.wf(),
            !m.is_locked(),
            m.value() == value,
    {
        Mutex { word: LockWord::new_unlocked(), slot: Some(value) }
    }

    /// One iteration of the contending loop: the compare-and-swap from
    /// unlocked to locked, deciding between acquisition and blocking.
    ///
    /// The attempt wins exactly when the word was free; a losing attempt
    /// changes nothing and obliges the thread to block on the word with the
    /// observed locked value, then retry.
    pub fn lock_attempt(&mut self) -> (o: Attempt<T>)
        requires
            old(self).wf(),
        ensures
            final(self).wf(),
            !old(self).is_locked() ==> o is Acquired && final(self).is_locked()
                && o->Acquired_0.value() == old(self).value(),
            old(self).is_locked() ==> o is Block && *final(self) == *old(self),
    {
        let won = self.word.compare_exchange_acquire();
        if won {
            let data = self.slot.take();
            Attempt::Acquired(MutexGuard::new(data.unwrap()))
        } else {
            Attempt::Block
        }
    }

    /// Acquire the lock, obtaining the guard that carries the payload.
    ///
    /// The uncontended path: with the word free the first attempt wins.
    /// Under contention the driver loops — attempt, block, retry — and this
    /// model demands the word be free because re-entry by the holder would
    /// block forever with nobody left to signal.
    pub fn lock(&mut self) -> (g: MutexGuard<T>)
        requires
            old(self).wf(),
            !old(self).is_locked(),
        ensures
            final(self).wf(),
            final(self).is_locked(),
            g.value() == old(self).value(),
    {
        match self.lock_attempt() {
            Attempt::Acquired(g) => g,
            Attempt::Block => vstd::pervasive::unreached(),
        }
    }

    /// Release the lock by giving the guard back: the payload returns to
    /// the lock, the unlocked word is stored with release ordering, and the
    /// caller is told to signal one waiter — always, since the two-state
    /// encoding cannot see whether anyone is blocked.
    ///
    /// Together with [`Mutex::lock_attempt`] this is the liveness pairing:
    /// after this store, a woken waiter's retry finds the word free and
    /// acquires, so one signal suffices for progress when the lock stays
    /// available.
    pub fn unlock(&mut self, g: MutexGuard<T>) -> (a: ReleaseAction)
        requires
            old(self).wf(),
            old(self).is_locked(),
        ensures
            final(self).wf(),
            !final(self).is_locked(),
            final(self).value() == g.value(),
            a is WakeOne,
    {
        self.slot = Some(g.into_inner());
        self.word.store_release_unlocked();
        ReleaseAction::WakeOne
    }
}

} // verus!
