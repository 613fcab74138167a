use sched_bench::barrier::SpinBarrier;
use sched_bench::config::parse_args;
use sched_bench::coordinator::{barrier_group_size, build_worker_grid, standard_grid, GridConfig};
use sched_bench::sched::{bind_cpu, set_sched, tier_value, PolicyError, SchedulingPolicy};
use sched_bench::work::WorkSource;
use sched_bench::worker::{burn, run_rounds};

#[test]
fn tier_values_follow_the_policy_table() {
    for policy in [SchedulingPolicy::RoundRobin, SchedulingPolicy::Fifo] {
        assert_eq!(tier_value(policy, 0), 98);
        assert_eq!(tier_value(policy, 1), 90);
        assert_eq!(tier_value(policy, 2), 99);
    }
    assert_eq!(tier_value(SchedulingPolicy::Other, 0), -5);
    assert_eq!(tier_value(SchedulingPolicy::Other, 1), 5);
    assert_eq!(tier_value(SchedulingPolicy::Other, 2), -10);
}

#[test]
fn standard_grid_shape() {
    let g = standard_grid();
    assert_eq!(g.ncores, 4);
    assert_eq!(g.threads_per_core, 4);
    assert_eq!(g.nprios, 2);
    assert_eq!(g.nbarriers, 2);
    assert!(g.coordinator_policy);
    assert_eq!(barrier_group_size(&g), 8);
}

#[test]
fn worker_grid_cycles_tiers_and_groups_per_core() {
    let g = standard_grid();
    let ws = build_worker_grid(&g, 3, 1000);
    assert_eq!(ws.len(), 16);
    for (i, w) in ws.iter().enumerate() {
        assert_eq!(w.cpu, i / 4);
        assert_eq!(w.tier, (i % 4) % 2);
        assert_eq!(w.barrier_group, (i % 4) % 2);
        assert_eq!(w.rounds, 3);
        assert_eq!(w.iters, 1000);
    }
    // Each of the two groups is filled to exactly the barrier group size.
    let size = barrier_group_size(&g);
    for group in 0..g.nbarriers {
        let members = ws.iter().filter(|w| w.barrier_group == group).count();
        assert_eq!(members, size);
    }
}

#[test]
fn single_group_grid() {
    let g = GridConfig {
        ncores: 1,
        threads_per_core: 2,
        nprios: 2,
        nbarriers: 1,
        coordinator_policy: false,
    };
    assert_eq!(barrier_group_size(&g), 2);
    let ws = build_worker_grid(&g, 1, 1);
    assert_eq!(ws.len(), 2);
    assert_eq!(ws[0].cpu, 0);
    assert_eq!(ws[1].cpu, 0);
    assert_eq!(ws[0].tier, 0);
    assert_eq!(ws[1].tier, 1);
    assert_eq!(ws[0].barrier_group, 0);
    assert_eq!(ws[1].barrier_group, 0);
}

#[test]
fn burn_computes_the_cube() {
    assert_eq!(burn(2, 1000), 8);
    assert_eq!(burn(6, 1), 216);
    assert_eq!(burn(-3, 5), -27);
    assert_eq!(burn(2, 0), 2);
    assert_eq!(burn(2000, 3), 2000i32.wrapping_mul(2000).wrapping_mul(2000));
}

#[test]
fn run_rounds_draws_round_robin_and_advances() {
    let mut s = WorkSource::new(vec![2, 4, 6]);
    let drawn = run_rounds(&mut s, 5, 10);
    assert_eq!(drawn, vec![2, 4, 6, 2, 4]);
    assert_eq!(s.cursor(), 2);
    assert_eq!(run_rounds(&mut s, 0, 10), Vec::<i32>::new());
    assert_eq!(s.cursor(), 2);
}

#[test]
fn two_workers_one_group_complete_six_draws() {
    // SCHED_RR, rounds 3, iterations 1000, numbers 2 4 6, two workers in
    // one barrier group: the rendezvous completes and the workers' rounds
    // draw six values in all.
    let a: Vec<String> = ["SCHED_RR", "3", "1000", "2", "4", "6"]
        .iter()
        .map(|s| s.to_string())
        .collect();
    let c = parse_args(&a).unwrap();
    assert_eq!(c.policy, SchedulingPolicy::RoundRobin);
    let mut barrier = SpinBarrier::new(2);
    assert!(!barrier.wait());
    assert!(barrier.wait());
    assert_eq!(barrier.generation(), 1);
    let mut source = WorkSource::new(c.numbers);
    let first = run_rounds(&mut source, c.rounds, c.iters);
    let second = run_rounds(&mut source, c.rounds, c.iters);
    assert_eq!(first.len() + second.len(), 6);
    assert_eq!(first, vec![2, 4, 6]);
    assert_eq!(second, vec![2, 4, 6]);
}

#[test]
fn set_sched_surfaces_a_rejected_request() {
    // The time-shared policy only accepts priority zero, so asking for the
    // tier's niceness through the scheduling-class call is rejected by the
    // OS and surfaced, carrying what was requested.
    let r = set_sched(SchedulingPolicy::Other, 0);
    assert_eq!(
        r,
        Err(PolicyError { policy: SchedulingPolicy::Other, priority: -5 })
    );
}

#[test]
fn bind_cpu_to_first_core_succeeds() {
    assert_eq!(bind_cpu(0), Ok(()));
}

#[test]
fn bind_cpu_to_absent_core_is_an_error() {
    let r = bind_cpu(4095);
    if let Err(e) = r {
        assert_eq!(e.cpu, 4095);
    } else {
        // A machine that large would accept the binding.
        assert_eq!(r, Ok(()));
    }
}
