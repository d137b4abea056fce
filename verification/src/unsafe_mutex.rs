use vstd::prelude::*;

use crate::word::LockWord;

verus! {

/// The backoff-spinning variant with manual release.
///
/// It follows the same state-word protocol as [`crate::raw_mutex::Mutex`];
/// the difference is the wait strategy of a contending thread, which yields
/// the processor for a short fixed delay (tens of nanoseconds) between
/// failed compare-and-swap attempts instead of spinning hot. That trades a
/// little acquisition latency for far less traffic on the contended word.
/// The delay is scheduling behaviour of the driver that runs real threads;
/// the lock state protocol — and so everything stated here — is unchanged
/// by it.
///
/// As with the raw variant, the caller must pair every acquisition with
/// exactly one call of [`Mutex::unlock`] and must not touch the payload
/// outside that window; the contracts below make both demands explicit.
pub struct Mutex<T> {
    word: LockWord,
    data: T,
}

impl<T> Mutex<T> {
    /// Whether the state word currently reads as locked.
    pub closed spec fn is_locked(&self) -> bool {
        self.word.is_locked()
    }

    /// The protected payload.
    pub closed spec fn value(&self) -> T {
        self.data
    }

    /// A fresh, unlocked lock around `value`.
    pub fn new(value: T) -> (m: Mutex<T>)
        ensures
            !m.is_locked(),
            m.value() == value,
    {
        Mutex { word: LockWord::new_unlocked(), data: value }
    }

    /// Acquire the lock and hand out exclusive access to the payload.
    ///
    /// Models the backoff loop at the moment its compare-and-swap from
    /// unlocked to locked succeeds; re-entry by the current holder would
    /// sleep and retry forever, so the word must be free.
    pub fn lock(&mut self) -> (r: &mut T)
        requires
            !old(self).is_locked(),
        ensures
            *r == old(self).value(),
            final(self).is_locked(),
            final(self).value() == *final(r),
    {
        let won = self.word.compare_exchange_acquire();
        assert(won);
        &mut self.data
    }

    /// Release the lock: the store of the unlocked value on the state word.
    pub fn unlock(&mut self)
        requires
            old(self).is_locked(),
        ensures
            !final(self).is_locked(),
            final(self).value() == old(self).value(),
    {
        self.word.store_release_unlocked();
    }
}

} // verus!
