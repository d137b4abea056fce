use mutexes::kernel_wait_mutex;
use mutexes::mutex;
use mutexes::raw_mutex;
use mutexes::safe_spin_mutex;
use mutexes::unsafe_mutex;

#[test]
fn raw_mutex_it_works() {
    let mut mux = raw_mutex::Mutex::new(100u64);
    {
        let d = mux.lock();
        *d += 1;
    }
    mux.unlock();
    {
        let d = mux.lock();
        *d += 1;
    }
    mux.unlock();
    let d = mux.lock();
    assert_eq!(102, *d);
    mux.unlock();
}

#[test]
fn unsafe_mutex_increment() {
    let mut mux = unsafe_mutex::Mutex::new(520u64);
    {
        let d = mux.lock();
        *d = 251;
    }
    mux.unlock();
    let d = mux.lock();
    assert_eq!(251, *d);
    mux.unlock();
}

#[test]
fn safe_spin_mutex_it_works() {
    // The single-thread round trip also stands, verified, in the library.
    safe_spin_mutex::it_works();
    let mut mux = safe_spin_mutex::Mutex::new(100u64);
    let mut d = mux.lock();
    let v = *d.get();
    d.set(v + 1);
    mux.unlock(d);
    let d = mux.lock();
    assert_eq!(*d.get(), 101);
    mux.unlock(d);
}

#[test]
fn kernel_wait_mutex_it_works() {
    let mut mux = kernel_wait_mutex::Mutex::new(101u64);
    for _ in 0..10_000 {
        let mut d = mux.lock();
        let v = *d.get();
        d.set(v + 1);
        let action = mux.unlock(d);
        // The two-state encoding always signals one waiter on release.
        assert!(matches!(action, kernel_wait_mutex::ReleaseAction::WakeOne));
    }
    let d = mux.lock();
    assert_eq!(*d.get(), 10_101);
    mux.unlock(d);
}

#[test]
fn mutex_it_works() {
    let mut mux = mutex::Mutex::new(101u64);
    for _ in 0..10_000 {
        let mut d = mux.lock();
        let v = *d.get();
        d.set(v + 1);
        let woken = mux.unlock(d);
        // Nobody waits in a single-thread pass: the release wakes no one.
        assert!(woken.is_none());
    }
    let d = mux.lock();
    assert_eq!(*d.get(), 10_101);
    mux.unlock(d);
}

#[test]
fn array() {
    let mut mux = mutex::Mutex::new(Vec::<i32>::with_capacity(1000));
    for i in 0..1000 {
        let mut d = mux.lock();
        d.get_mut().push(i);
        mux.unlock(d);
    }
    let d = mux.lock();
    assert_eq!(d.get().len(), 1000);
    mux.unlock(d);
}

#[test]
fn guard_is_the_only_access() {
    // The payload goes with the guard and comes back on release: releasing
    // stores exactly what the holder last wrote.
    let mut mux = safe_spin_mutex::Mutex::new(String::from("first"));
    let mut d = mux.lock();
    d.set(String::from("second"));
    mux.unlock(d);
    let d = mux.lock();
    assert_eq!(d.get().as_str(), "second");
    mux.unlock(d);
}
