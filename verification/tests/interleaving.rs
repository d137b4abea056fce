use mutexes::interleave;

/// Every thread acquires once and increments once; whatever the schedule,
/// the counter ends at the start value plus the thread count.
fn increments_survive(base: u64, n: usize, schedule: &Vec<usize>) {
    let s = interleave::run(base, n, schedule);
    assert!(s.all_done(), "the schedule must let every thread finish");
    assert_eq!(s.counter(), base + n as u64);
}

/// A schedule that lets each thread run to completion before the next one
/// starts: two steps per thread, acquire then release.
fn sequential_schedule(n: usize) -> Vec<usize> {
    let mut schedule = Vec::with_capacity(2 * n);
    for t in 0..n {
        schedule.push(t);
        schedule.push(t);
    }
    schedule
}

/// A schedule with heavy contention: every thread takes a step in every
/// round, so losers keep retrying against the current holder.
fn round_robin_schedule(n: usize, rounds: usize) -> Vec<usize> {
    let mut schedule = Vec::with_capacity(n * rounds);
    for _ in 0..rounds {
        for t in 0..n {
            schedule.push(t);
        }
    }
    schedule
}

#[test]
fn no_threads_no_change() {
    increments_survive(17, 0, &Vec::new());
}

#[test]
fn one_thread() {
    increments_survive(0, 1, &sequential_schedule(1));
}

#[test]
fn hundred_threads_uncontended() {
    increments_survive(101, 100, &sequential_schedule(100));
}

#[test]
fn hundred_threads_contended() {
    // 201 rounds: each round finishes at most one holder, with every other
    // thread hammering the word in between; the final rounds drain the rest.
    increments_survive(101, 100, &round_robin_schedule(100, 201));
}

#[test]
fn ten_thousand_threads() {
    increments_survive(101, 10_000, &sequential_schedule(10_000));
}

#[test]
fn log_holds_every_index_once() {
    let n: usize = 10_000;
    let s = interleave::run(0, n, &sequential_schedule(n));
    assert!(s.all_done());
    let log = s.log();
    assert_eq!(log.len(), n);
    let mut seen = vec![false; n];
    for &t in log.iter() {
        let t = t as usize;
        assert!(t < n, "only real thread identities are logged");
        assert!(!seen[t], "no identity is logged twice");
        seen[t] = true;
    }
    assert!(seen.iter().all(|&b| b), "every identity is logged");
}

#[test]
fn contended_log_is_complete_too() {
    let n: usize = 50;
    // Interleave aggressively: reversed rounds, so late threads contend
    // ahead of early ones.
    let mut schedule = Vec::new();
    for _ in 0..(2 * n + 1) {
        for t in (0..n).rev() {
            schedule.push(t);
        }
    }
    let s = interleave::run(7, n, &schedule);
    assert!(s.all_done());
    assert_eq!(s.counter(), 7 + n as u64);
    let log = s.log();
    assert_eq!(log.len(), n);
    let mut seen = vec![false; n];
    for &t in log.iter() {
        assert!(!seen[t as usize]);
        seen[t as usize] = true;
    }
}
