use sched_bench::barrier::SpinBarrier;
use sched_bench::work::WorkSource;

#[test]
fn barrier_single_participant_releases_immediately() {
    let mut b = SpinBarrier::new(1);
    assert_eq!(b.generation(), 0);
    assert!(b.wait());
    assert_eq!(b.generation(), 1);
    assert!(b.wait());
    assert_eq!(b.generation(), 2);
}

#[test]
fn barrier_releases_exactly_on_last_arrival() {
    let mut b = SpinBarrier::new(3);
    assert_eq!(b.group_size(), 3);
    assert!(!b.wait());
    assert_eq!(b.generation(), 0);
    assert_eq!(b.arrived(), 1);
    assert!(!b.wait());
    assert_eq!(b.generation(), 0);
    assert_eq!(b.arrived(), 2);
    assert!(b.wait());
    assert_eq!(b.generation(), 1);
    assert_eq!(b.arrived(), 0);
}

#[test]
fn barrier_is_reusable_without_reset() {
    let mut b = SpinBarrier::new(2);
    for round in 0..5u64 {
        assert!(!b.wait());
        assert_eq!(b.generation(), round);
        assert!(b.wait());
        assert_eq!(b.generation(), round + 1);
    }
}

#[test]
fn barrier_stress_generation_monotonic_no_double_release() {
    let n = 4usize;
    let rounds = 10_000u64;
    let mut b = SpinBarrier::new(n);
    for round in 0..rounds {
        for arrival in 0..n {
            let released = b.wait();
            if arrival + 1 < n {
                // Fewer than n arrivals: nobody may be released.
                assert!(!released);
                assert_eq!(b.generation(), round);
                assert_eq!(b.arrived(), arrival + 1);
            } else {
                // Exactly one release per round, by the last arrival.
                assert!(released);
                assert_eq!(b.generation(), round + 1);
                assert_eq!(b.arrived(), 0);
            }
        }
    }
    assert_eq!(b.generation(), rounds);
}

#[test]
fn work_source_cycles_in_order_and_wraps() {
    let mut s = WorkSource::new(vec![2, 4, 6]);
    assert_eq!(s.len(), 3);
    assert_eq!(s.cursor(), 0);
    assert_eq!(s.next(), 2);
    assert_eq!(s.next(), 4);
    assert_eq!(s.next(), 6);
    // The fourth draw wraps to the first value again.
    assert_eq!(s.next(), 2);
    assert_eq!(s.cursor(), 1);
}

#[test]
fn work_source_single_value() {
    let mut s = WorkSource::new(vec![7]);
    for _ in 0..10 {
        assert_eq!(s.next(), 7);
        assert_eq!(s.cursor(), 0);
    }
}

#[test]
fn work_source_interleaved_draws_stay_round_robin() {
    // Two callers drawing three times each, interleaved: the six draws are
    // exactly two full round-robin cycles, none skipped, none repeated.
    let mut s = WorkSource::new(vec![2, 4, 6]);
    let mut a: Vec<i32> = Vec::new();
    let mut b: Vec<i32> = Vec::new();
    for turn in 0..6 {
        if turn % 2 == 0 {
            a.push(s.next());
        } else {
            b.push(s.next());
        }
    }
    let mut all = Vec::new();
    for turn in 0..6 {
        all.push(if turn % 2 == 0 { a[turn / 2] } else { b[turn / 2] });
    }
    assert_eq!(all, vec![2, 4, 6, 2, 4, 6]);
    let mut counts = [0usize; 3];
    for v in all {
        let idx = match v {
            2 => 0,
            4 => 1,
            6 => 2,
            _ => unreachable!(),
        };
        counts[idx] += 1;
    }
    assert_eq!(counts, [2, 2, 2]);
}
