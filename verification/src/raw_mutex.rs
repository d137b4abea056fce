use vstd::prelude::*;

use crate::word::LockWord;

verus! {

/// The spinning variant with manual release: the leaf primitive of the
/// crate, used by the fair queue lock to protect its own wait queue.
///
/// A thread acquires by retrying the compare-and-swap on the state word,
/// executing a processor spin hint between failed attempts, and must call
/// [`Mutex::unlock`] exactly once when it is done with the payload. There is
/// no fairness guarantee: whichever spinning thread's attempt lands first
/// after a release wins, and starvation under heavy contention is an
/// accepted trade-off of this variant.
///
/// The model keeps the payload in the structure itself; exclusivity of
/// access is the state word's protocol. Acquiring while the lock is already
/// held would spin forever (re-entry by the holder deadlocks permanently),
/// so [`Mutex::lock`] asks the word to be free — the driver that runs real
/// threads spins precisely until that is the case.
pub struct Mutex<T> {
    word: LockWord,
    data: T,
}

impl<T> Mutex<T> {
    /// Whether the state word currently reads as locked.
    pub closed spec fn is_locked(&self) -> bool {
        self.word.is_locked()
    }

    /// The protected payload.
    pub closed spec fn value(&self) -> T {
        self.data
    }

    /// A fresh, unlocked lock around `value`.
    pub fn new(value: T) -> (m: Mutex<T>)
        ensures
            !m.is_locked(),
            m.value() == value,
    {
        Mutex { word: LockWord::new_unlocked(), data: value }
    }

    /// Acquire the lock and hand out exclusive access to the payload.
    ///
    /// Models the spin loop at the moment its compare-and-swap from unlocked
    /// to locked succeeds: the word must be free, afterwards it is held and
    /// the payload may be read and written through the returned reference
    /// until [`Mutex::unlock`] gives it up.
    pub fn lock(&mut self) -> (r: &mut T)
        requires
            !old(self).is_locked(),
        ensures
            *r == old(self).value(),
            final(self).is_locked(),
            final(self).value() == *final(r),
    {
        let won = self.word.compare_exchange_acquire();
        assert(won);
        &mut self.data
    }

    /// Release the lock: the store of the unlocked value on the state word.
    ///
    /// The payload is left exactly as the holder left it. Calling this
    /// without holding the lock is the misuse the guard-based variants
    /// exist to rule out, so the contract demands the lock be held.
    pub fn unlock(&mut self)
        requires
            old(self).is_locked(),
        ensures
            !final(self).is_locked(),
            final(self).value() == old(self).value(),
    {
        self.word.store_release_unlocked();
    }
}

} // verus!
