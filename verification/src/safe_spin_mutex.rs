use vstd::prelude::*;

use crate::word::LockWord;

verus! {

/// Scoped exclusive access to the payload of a [`Mutex`].
///
/// While a guard is alive it owns the payload outright, which is how the
/// model renders exclusivity: the value sits in at most one place, so two
/// live guards for the same lock cannot exist. The guard is moved, never
/// copied or cloned, and giving it back to [`Mutex::unlock`] is the one way
/// to release the lock — the step a scope exit performs through the guard's
/// destructor in the driver that runs real threads.
pub struct MutexGuard<T> {
    data: T,
}

impl<T> MutexGuard<T> {
    /// The payload as seen and written through this guard.
    pub closed spec fn value(&self) -> T {
        self.data
    }

    /// Wrap a payload the caller holds exclusively. [`Mutex::lock`] is the
    /// only place a payload becomes available for this.
    pub fn new(data: T) -> (g: MutexGuard<T>)
        ensures
            g.value() == data,
    {
        MutexGuard { data }
    }

    /// Read access to the payload.
    pub fn get(&self) -> (r: &T)
        ensures
            *r == self.value(),
    {
        &self.data
    }

    /// Write access to the payload.
    pub fn get_mut(&mut self) -> (r: &mut T)
        ensures
            *r == old(self).value(),
            final(self).value() == *final(r),
    {
        &mut self.data
    }

    /// Consume the guard and surrender the payload. A lock's release uses
    /// this to put the payload back; the guard is gone afterwards.
    pub fn into_inner(self) -> (data: T)
        ensures
            data == self.value(),
    {
        self.data
    }

    /// Replace the payload.
    pub fn set(&mut self, value: T)
        ensures
            final(self).value() == value,
    {
        self.data = value;
    }
}

/// The guard-based backoff-spinning lock.
///
/// Acquisition retries the compare-and-swap on the state word, yielding the
/// thread for a short fixed delay between failed attempts; release happens
/// through the returned [`MutexGuard`] and nowhere else, which removes the
/// manual-release misuse of the raw variants. No fairness is promised: a
/// freshly arriving thread can beat one that has waited longer.
///
/// `wf` ties the state word to the payload's location: the word reads
/// locked exactly while the payload is out in a guard. Every operation
/// preserves it, so a release always finds the word locked and a successful
/// acquisition always finds a payload to hand out.
pub struct Mutex<T> {
    word: LockWord,
    slot: Option<T>,
}

impl<T> Mutex<T> {
    /// Whether the state word currently reads as locked.
    pub closed spec fn is_locked(&self) -> bool {
        self.word.is_locked()
    }

    /// The payload at rest in the lock; `None` while a guard holds it.
    pub closed spec fn stored(&self) -> Option<T> {
        self.slot
    }

    /// The payload at rest, for contracts on the unlocked state.
    pub open spec fn value(&self) -> T
        recommends
            !self.is_locked(),
    {
        self.stored()->0
    }

    /// The state word agrees with the payload's location: locked exactly
    /// while the payload is out in a guard.
    pub open spec fn wf(&self) -> bool {
        self.is_locked() <==> self.stored() is None
    }

    /// A fresh, unlocked lock around `value`.
    pub fn new(value: T) -> (m: Mutex<T>)
        ensures
            m.wf(),
            !m.is_locked(),
            m.value() == value,
    {
        Mutex { word: LockWord::new_unlocked(), slot: Some(value) }
    }

    /// Acquire the lock, obtaining the guard that carries the payload.
    ///
    /// Models the backoff loop at the moment its compare-and-swap from
    /// unlocked to locked succeeds; the word must be free, since re-entry
    /// by the current holder retries forever.
    pub fn lock(&mut self) -> (g: MutexGuard<T>)
        requires
            old(self).wf(),
            !old(self).is_locked(),
        ensures
            final(self).wf(),
            final(self).is_locked(),
            g.value() == old(self).value(),
    {
        let won = self.word.compare_exchange_acquire();
        assert(won);
        let data = self.slot.take();
        MutexGuard::new(data.unwrap())
    }

    /// Release the lock by giving the guard back: the payload returns to
    /// the lock and the state word is stored unlocked, in that order, so
    /// that the next holder's acquire pairs with this release and sees the
    /// payload writes made through the guard.
    pub fn unlock(&mut self, g: MutexGuard<T>)
        requires
            old(self).wf(),
            old(self).is_locked(),
        ensures
            final(self).wf(),
            !final(self).is_locked(),
            final(self).value() == g.value(),
    {
        let MutexGuard { data } = g;
        self.slot = Some(data);
        self.word.store_release_unlocked();
    }
}

/// The uncontended round trip: a single thread creates the lock, acquires
/// it, increments the payload through the guard, releases by handing the
/// guard back, reacquires, and sees the increment.
pub fn it_works() {
    let mut mux = Mutex::<u64>::new(100);
    let mut d = mux.lock();
    let v: u64 = *d.get();
    d.set(v + 1);
    mux.unlock(d);
    let d = mux.lock();
    let w: u64 = *d.get();
    assert(w == 101);
    mux.unlock(d);
}

} // verus!
