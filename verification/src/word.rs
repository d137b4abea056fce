use vstd::prelude::*;

verus! {

/// Model of the one-word atomic lock state shared by every variant in this
/// crate: `false` stands for the unlocked word and `true` for the locked
/// word. Each method models one atomic instruction: within a single
/// interleaving step it reads and writes the word indivisibly, which is the
/// guarantee the hardware operation gives.
///
/// Memory ordering is part of the protocol rather than of this value model:
/// a successful compare-and-swap must use acquire ordering and the releasing
/// store release ordering, so that the payload writes of the previous holder
/// happen-before the payload reads of the next one. The model reflects the
/// resulting exclusivity by letting the payload travel with the lock (see
/// the mutex modules).
pub struct LockWord {
    locked: bool,
}

impl LockWord {
    /// Whether the word currently reads as locked.
    pub closed spec fn is_locked(&self) -> bool {
        self.locked
    }

    /// A fresh word in the unlocked state.
    pub fn new_unlocked() -> (w: LockWord)
        ensures
            !w.is_locked(),
    {
        LockWord { locked: false }
    }

    /// One compare-and-swap attempt from unlocked to locked (acquire
    /// ordering on success, relaxed on failure). It succeeds exactly when
    /// the word was unlocked, and afterwards the word is locked either way.
    pub fn compare_exchange_acquire(&mut self) -> (won: bool)
        ensures
            won == !old(self).is_locked(),
            final(self).is_locked(),
            old(self).is_locked() ==> *final(self) == *old(self),
    {
        let won = !self.locked;
        self.locked = true;
        won
    }

    /// The releasing store of the unlocked value (release ordering).
    pub fn store_release_unlocked(&mut self)
        ensures
            !final(self).is_locked(),
    {
        self.locked = false;
    }

    /// An atomic load of the word.
    pub fn load(&self) -> (locked: bool)
        ensures
            locked == self.is_locked(),
    {
        self.locked
    }
}

} // verus!
