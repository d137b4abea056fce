use mutexes::kernel_wait_mutex;
use mutexes::kernel_wait_mutex::{Attempt, ReleaseAction};
use mutexes::mutex;
use mutexes::mutex::{Contend, WaitQueue};

#[test]
fn queue_is_first_in_first_out() {
    let mut q = WaitQueue::new();
    assert!(q.enqueue_if_absent(7));
    assert!(q.enqueue_if_absent(9));
    assert!(q.enqueue_if_absent(3));
    assert_eq!(q.len(), 3);
    assert_eq!(q.pop_front(), Some(7));
    assert_eq!(q.pop_front(), Some(9));
    assert_eq!(q.pop_front(), Some(3));
    assert_eq!(q.pop_front(), None);
}

#[test]
fn queue_membership_is_idempotent() {
    // A spuriously woken thread re-runs the wait path; it must not appear
    // twice however often it does.
    let mut q = WaitQueue::new();
    assert!(q.enqueue_if_absent(5));
    assert!(!q.enqueue_if_absent(5));
    assert!(!q.enqueue_if_absent(5));
    assert_eq!(q.len(), 1);
    assert_eq!(q.pop_front(), Some(5));
    assert_eq!(q.pop_front(), None);
}

#[test]
fn fair_lock_serves_in_arrival_order() {
    let mut m = mutex::Mutex::new(0u64);
    let holder = m.lock();
    // Thread 1 begins contending strictly before thread 2.
    assert!(matches!(m.contend(1), Contend::Parked));
    assert!(matches!(m.contend(2), Contend::Parked));
    assert_eq!(m.waiters(), 2);
    // The release names thread 1, the longest waiter — a targeted wake.
    let woken = m.unlock(holder);
    assert_eq!(woken, Some(1));
    // Thread 1 retries and now wins; its release names thread 2.
    let g1 = match m.contend(1) {
        Contend::Acquired(g) => g,
        Contend::Parked => panic!("the woken thread finds the word free"),
    };
    let woken = m.unlock(g1);
    assert_eq!(woken, Some(2));
    let g2 = match m.contend(2) {
        Contend::Acquired(g) => g,
        Contend::Parked => panic!("the woken thread finds the word free"),
    };
    assert_eq!(m.unlock(g2), None);
}

#[test]
fn spurious_wake_does_not_duplicate_a_waiter() {
    let mut m = mutex::Mutex::new(0u64);
    let holder = m.lock();
    assert!(matches!(m.contend(4), Contend::Parked));
    // Woken spuriously, thread 4 re-runs the whole wait path: the word is
    // still held, so it parks again — and is still queued only once.
    assert!(matches!(m.contend(4), Contend::Parked));
    assert!(matches!(m.contend(4), Contend::Parked));
    assert_eq!(m.waiters(), 1);
    assert_eq!(m.unlock(holder), Some(4));
    assert_eq!(m.waiters(), 0);
}

#[test]
fn wait_then_wake_makes_progress() {
    // One waiter paired with one releaser: the waiter's attempt observes
    // the locked word and blocks; the release stores the unlocked word and
    // signals; the woken waiter's retry acquires without any further help.
    let mut m = kernel_wait_mutex::Mutex::new(33u64);
    let holder = m.lock();
    assert!(matches!(m.lock_attempt(), Attempt::Block));
    let action = m.unlock(holder);
    assert!(matches!(action, ReleaseAction::WakeOne));
    let g = match m.lock_attempt() {
        Attempt::Acquired(g) => g,
        Attempt::Block => panic!("one wake suffices once the lock is free"),
    };
    assert_eq!(*g.get(), 33);
    m.unlock(g);
}

#[test]
fn release_returns_the_lock_to_unlocked() {
    // A guard's release must leave the word free: reacquisition succeeds
    // immediately for every variant.
    let mut spin = mutexes::safe_spin_mutex::Mutex::new(1u64);
    let g = spin.lock();
    spin.unlock(g);
    let g = spin.lock();
    spin.unlock(g);

    let mut futex = kernel_wait_mutex::Mutex::new(1u64);
    let g = futex.lock();
    futex.unlock(g);
    let g = futex.lock();
    futex.unlock(g);

    let mut fair = mutex::Mutex::new(1u64);
    let g = fair.lock();
    fair.unlock(g);
    let g = fair.lock();
    fair.unlock(g);
}
