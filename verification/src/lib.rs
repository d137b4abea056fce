//! Mutual-exclusion primitives, each modelled and verified as an explicit
//! state machine.
//!
//! Every variant in this crate guards a payload with a single one-word lock
//! state: acquisition is a compare-and-swap of that word from unlocked to
//! locked, release is a store of the unlocked value. The variants differ only
//! in what a thread does while the word is held by somebody else: spin on the
//! spot (`raw_mutex`), back off for a fixed delay (`safe_spin_mutex`,
//! `unsafe_mutex`), block on the word itself and be woken by the releaser
//! (`kernel_wait_mutex`), or enter an explicit first-in-first-out wait queue
//! and be handed the lock in arrival order (`mutex`).
//!
//! The waiting itself — spinning a core, a timed sleep, a kernel-level wait,
//! parking a thread — cannot be expressed in verified code, so the driver
//! that owns the real atomic word and the real threads performs it; this
//! crate supplies the decisions such a driver has to make (when an attempt
//! wins, whom a releaser must wake, when a waiter may enqueue itself) as
//! verified functions over an explicit model of the shared state, together
//! with proofs of the protocol's central properties: mutual exclusion under
//! every interleaving (`interleave`), release always returning the word to
//! the unlocked state, first-in-first-out hand-off, and duplicate-free queue
//! membership (`mutex`).

pub mod interleave;
pub mod kernel_wait_mutex;
pub mod mutex;
pub mod raw_mutex;
pub mod safe_spin_mutex;
pub mod unsafe_mutex;
pub mod word;
