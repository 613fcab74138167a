//! The coordinator's plan: the grid of worker threads, their priority
//! tiers and barrier groups.
//!
//! The grid is `ncores × threads_per_core` workers. Within each core the
//! threads cycle through the priority tiers and through the barrier
//! groups, so tiers and groups are spread evenly over every core. The
//! coordinator builds one configuration per worker before any thread is
//! launched; configurations are never changed afterwards.

use vstd::prelude::*;
use vstd::arithmetic::div_mod::lemma_fundamental_div_mod_converse;
use crate::sched::NPRIOS;

verus! {

/// The shape of one benchmark run: how many cores are used, how many
/// worker threads run on each, how many priority tiers and how many
/// independent barrier groups the workers are spread over, and whether the
/// coordinating thread applies the scheduling policy to itself before
/// spawning.
#[derive(Clone, Copy, Debug, PartialEq, Eq, Structural)]
pub struct GridConfig {
    pub ncores: usize,
    pub threads_per_core: usize,
    pub nprios: usize,
    pub nbarriers: usize,
    pub coordinator_policy: bool,
}

impl GridConfig {
    /// A usable grid: at least one core and one thread per core, between
    /// one and `NPRIOS` priority tiers, and a barrier-group count that
    /// divides the threads per core, so every group is filled to the same
    /// size. The grid itself must be countable in a `usize`.
    pub open spec fn wf(self) -> bool {
        &&& 1 <= self.ncores
        &&& 1 <= self.threads_per_core
        &&& 1 <= self.nprios <= NPRIOS
        &&& 1 <= self.nbarriers
        &&& self.threads_per_core % self.nbarriers == 0
        &&& self.ncores * self.threads_per_core <= usize::MAX
    }

    /// How many workers the grid holds in total.
    pub open spec fn spec_size(self) -> int {
        self.ncores * self.threads_per_core
    }
}

/// The grid the benchmark normally runs with: four cores with four worker
/// threads each, two priority tiers, two barrier groups, and the
/// coordinating thread scheduled under the configured policy as well.
pub fn standard_grid() -> (g: GridConfig)
    ensures
        g == (GridConfig {
            ncores: 4,
            threads_per_core: 4,
            nprios: 2,
            nbarriers: 2,
            coordinator_policy: true,
        }),
        g.wf(),
{
    GridConfig { ncores: 4, threads_per_core: 4, nprios: 2, nbarriers: 2, coordinator_policy: true }
}

/// The immutable parameters of one worker thread: the core it binds to,
/// the priority tier it is assigned, the barrier group it rendezvouses
/// with, and its round and iteration counts.
#[derive(Clone, Copy, Debug, PartialEq, Eq, Structural)]
pub struct WorkerConfig {
    pub cpu: usize,
    pub tier: usize,
    pub barrier_group: usize,
    pub rounds: i32,
    pub iters: i32,
}

/// The configuration of the `i`-th worker of the grid: workers are laid
/// out core by core, and within a core the threads cycle through the
/// priority tiers and through the barrier groups.
pub open spec fn spec_worker_at(g: GridConfig, rounds: i32, iters: i32, i: int) -> WorkerConfig {
    WorkerConfig {
        cpu: (i / (g.threads_per_core as int)) as usize,
        tier: ((i % (g.threads_per_core as int)) % (g.nprios as int)) as usize,
        barrier_group: ((i % (g.threads_per_core as int)) % (g.nbarriers as int)) as usize,
        rounds,
        iters,
    }
}

/// Build the configuration of every worker of the grid, in launch order.
/// Every worker's core is within the grid, its tier is a worker tier, and
/// its barrier group exists.
pub fn build_worker_grid(grid: &GridConfig, rounds: i32, iters: i32) -> (ws: Vec<WorkerConfig>)
    requires
        grid.wf(),
    ensures
        ws@.len() == grid.spec_size(),
        forall|i: int| 0 <= i < ws@.len() ==> ws@[i] == spec_worker_at(*grid, rounds, iters, i),
        forall|i: int|
            0 <= i < ws@.len() ==> (ws@[i].cpu < grid.ncores && ws@[i].tier < grid.nprios
                && ws@[i].barrier_group < grid.nbarriers),
{
    let mut ws: Vec<WorkerConfig> = Vec::new();
    let tpc = grid.threads_per_core;
    let mut cpu: usize = 0;
    while cpu < grid.ncores
        invariant
            grid.wf(),
            tpc == grid.threads_per_core,
            0 <= cpu <= grid.ncores,
            ws@.len() == cpu * tpc,
            forall|i: int|
                0 <= i < ws@.len() ==> ws@[i] == spec_worker_at(*grid, rounds, iters, i),
        decreases grid.ncores - cpu,
    {
        let mut t: usize = 0;
        while t < tpc
            invariant
                grid.wf(),
                tpc == grid.threads_per_core,
                0 <= cpu < grid.ncores,
                0 <= t <= tpc,
                ws@.len() == cpu * tpc + t,
                forall|i: int|
                    0 <= i < ws@.len() ==> ws@[i] == spec_worker_at(*grid, rounds, iters, i),
            decreases tpc - t,
        {
            let w = WorkerConfig {
                cpu,
                tier: t % grid.nprios,
                barrier_group: t % grid.nbarriers,
                rounds,
                iters,
            };
            proof {
                lemma_fundamental_div_mod_converse(
                    (cpu * tpc + t) as int,
                    tpc as int,
                    cpu as int,
                    t as int,
                );
                assert(w == spec_worker_at(*grid, rounds, iters, (cpu * tpc + t) as int));
            }
            ws.push(w);
            t = t + 1;
        }
        proof {
            assert((cpu + 1) * tpc == cpu * tpc + tpc) by (nonlinear_arith);
            assert((cpu + 1) * tpc <= grid.ncores * tpc) by (nonlinear_arith)
                requires
                    cpu + 1 <= grid.ncores,
                    tpc >= 0,
            ;
        }
        cpu = cpu + 1;
    }
    proof {
        assert forall|i: int| 0 <= i < ws@.len() implies (ws@[i].cpu < grid.ncores && ws@[i].tier
            < grid.nprios && ws@[i].barrier_group < grid.nbarriers) by {
            let tpcs = grid.threads_per_core as int;
            assert(ws@[i] == spec_worker_at(*grid, rounds, iters, i));
            assert(i / tpcs < grid.ncores) by (nonlinear_arith)
                requires
                    tpcs >= 1,
                    0 <= i < grid.ncores * tpcs,
            ;
        }
    }
    ws
}

/// The barrier group of the `i`-th worker of the grid.
pub open spec fn spec_group_at(g: GridConfig, i: int) -> int {
    (i % (g.threads_per_core as int)) % (g.nbarriers as int)
}

/// How many of the first `n` workers of the grid rendezvous at barrier
/// group `group`.
pub open spec fn spec_group_count(g: GridConfig, n: int, group: int) -> int
    decreases n,
{
    if n <= 0 {
        0
    } else {
        spec_group_count(g, n - 1, group) + if spec_group_at(g, n - 1) == group {
            1int
        } else {
            0int
        }
    }
}

/// The group a worker configuration carries is the group the counting law
/// speaks of: the `usize` field of the built configuration holds exactly
/// `spec_group_at` of the worker's position.
pub proof fn lemma_worker_group_at(g: GridConfig, rounds: i32, iters: i32, i: int)
    requires
        g.wf(),
        0 <= i,
    ensures
        spec_worker_at(g, rounds, iters, i).barrier_group == spec_group_at(g, i),
{
}

/// Counting the workers of a group is periodic in the threads per core:
/// shifting a whole block of cores adds the same count again.
#[verifier::spinoff_prover]
proof fn lemma_group_count_shift(g: GridConfig, base: int, m: int, group: int)
    requires
        g.wf(),
        base >= 0,
        base % (g.threads_per_core as int) == 0,
        0 <= m <= g.threads_per_core,
    ensures
        spec_group_count(g, base + m, group) == spec_group_count(g, base, group)
            + spec_group_count(g, m, group),
    decreases m,
{
    let tpc = g.threads_per_core as int;
    if m > 0 {
        lemma_group_count_shift(g, base, m - 1, group);
        assert((base + (m - 1)) % tpc == (m - 1) % tpc) by {
            vstd::arithmetic::div_mod::lemma_small_mod((m - 1) as nat, tpc as nat);
            vstd::arithmetic::div_mod::lemma_add_mod_noop(base, m - 1, tpc);
        }
        assert(spec_group_at(g, base + (m - 1)) == spec_group_at(g, m - 1));
    }
}

/// Within one core's block of threads, how many of the first `j` belong to
/// group `group`: the count in closed form.
#[verifier::spinoff_prover]
proof fn lemma_group_count_one_block(g: GridConfig, j: int, group: int)
    requires
        g.wf(),
        0 <= group < g.nbarriers,
        0 <= j <= g.threads_per_core,
    ensures
        spec_group_count(g, j, group) == (j + (g.nbarriers as int) - 1 - group) / (
        g.nbarriers as int),
    decreases j,
{
    let tpc = g.threads_per_core as int;
    let nb = g.nbarriers as int;
    if j > 0 {
        lemma_group_count_one_block(g, j - 1, group);
        vstd::arithmetic::div_mod::lemma_small_mod((j - 1) as nat, tpc as nat);
        assert(spec_group_at(g, j - 1) == (j - 1) % nb);
        let q = (j - 1) / nb;
        let r = (j - 1) % nb;
        let a = j - 1 + nb - 1 - group;
        vstd::arithmetic::div_mod::lemma_fundamental_div_mod(j - 1, nb);
        assert(j - 1 == nb * q + r);
        if r == group {
            // The group's own slot: the count steps up by one.
            assert(a == q * nb + (nb - 1)) by (nonlinear_arith)
                requires
                    j - 1 == nb * q + r,
                    r == group,
                    a == j - 1 + nb - 1 - group,
            ;
            vstd::arithmetic::div_mod::lemma_fundamental_div_mod_converse(a, nb, q, nb - 1);
            assert(a + 1 == (q + 1) * nb + 0) by (nonlinear_arith)
                requires
                    a == q * nb + (nb - 1),
            ;
            vstd::arithmetic::div_mod::lemma_fundamental_div_mod_converse(a + 1, nb, q + 1, 0);
        } else if r < group {
            // Before the group's slot: the count stays.
            assert(a == q * nb + (r + nb - 1 - group) && a + 1 == q * nb + (r + nb - group))
                by (nonlinear_arith)
                requires
                    j - 1 == nb * q + r,
                    a == j - 1 + nb - 1 - group,
            ;
            vstd::arithmetic::div_mod::lemma_fundamental_div_mod_converse(
                a,
                nb,
                q,
                r + nb - 1 - group,
            );
            vstd::arithmetic::div_mod::lemma_fundamental_div_mod_converse(
                a + 1,
                nb,
                q,
                r + nb - group,
            );
        } else {
            // Past the group's slot: the count stays.
            assert(a == (q + 1) * nb + (r - 1 - group) && a + 1 == (q + 1) * nb + (r - group))
                by (nonlinear_arith)
                requires
                    j - 1 == nb * q + r,
                    a == j - 1 + nb - 1 - group,
            ;
            vstd::arithmetic::div_mod::lemma_fundamental_div_mod_converse(
                a,
                nb,
                q + 1,
                r - 1 - group,
            );
            vstd::arithmetic::div_mod::lemma_fundamental_div_mod_converse(
                a + 1,
                nb,
                q + 1,
                r - group,
            );
        }
    } else {
        vstd::arithmetic::div_mod::lemma_basic_div(nb - 1 - group, nb);
    }
}

/// The first `c` cores of the grid contribute `c` blocks' worth of workers
/// to each group.
#[verifier::spinoff_prover]
proof fn lemma_group_count_cores(g: GridConfig, c: int, group: int)
    requires
        g.wf(),
        0 <= group < g.nbarriers,
        0 <= c <= g.ncores,
    ensures
        spec_group_count(g, c * (g.threads_per_core as int), group) == c * (
        (g.threads_per_core as int) / (g.nbarriers as int)),
    decreases c,
{
    let tpc = g.threads_per_core as int;
    let nb = g.nbarriers as int;
    let per_core = tpc / nb;
    if c > 0 {
        lemma_group_count_cores(g, c - 1, group);
        assert(((c - 1) * tpc) % tpc == 0) by {
            vstd::arithmetic::div_mod::lemma_mod_multiples_basic(c - 1, tpc);
        }
        assert((c - 1) * tpc >= 0) by (nonlinear_arith)
            requires
                c >= 1,
                tpc >= 1,
        ;
        lemma_group_count_shift(g, (c - 1) * tpc, tpc, group);
        assert(spec_group_count(g, tpc, group) == per_core) by {
            lemma_group_count_one_block(g, tpc, group);
            vstd::arithmetic::div_mod::lemma_fundamental_div_mod(tpc, nb);
            assert(tpc + nb - 1 - group == per_core * nb + (nb - 1 - group)) by (nonlinear_arith)
                requires
                    tpc == nb * per_core,
            ;
            vstd::arithmetic::div_mod::lemma_fundamental_div_mod_converse(
                tpc + nb - 1 - group,
                nb,
                per_core,
                nb - 1 - group,
            );
        }
        assert(c * tpc == (c - 1) * tpc + tpc) by (nonlinear_arith);
        assert(c * per_core == (c - 1) * per_core + per_core) by (nonlinear_arith);
    } else {
        assert(c * tpc == 0) by (nonlinear_arith)
            requires
                c == 0,
        ;
        assert(c * per_core == 0) by (nonlinear_arith)
            requires
                c == 0,
        ;
    }
}

/// Law: the grid fills every barrier group to exactly the size the
/// barriers are built with. Among all `ncores × threads_per_core` workers,
/// each of the `nbarriers` groups has exactly `grid size / nbarriers`
/// members — the group size returned by `barrier_group_size` — so a
/// rendezvous of each group is complete exactly when all its members
/// arrive.
#[verifier::spinoff_prover]
pub proof fn lemma_groups_filled_evenly(g: GridConfig, group: int)
    requires
        g.wf(),
        0 <= group < g.nbarriers,
    ensures
        spec_group_count(g, g.spec_size(), group) == g.spec_size() / (g.nbarriers as int),
{
    let tpc = g.threads_per_core as int;
    let nb = g.nbarriers as int;
    let per_core = tpc / nb;
    let n = g.ncores as int;
    lemma_group_count_cores(g, n, group);
    assert(g.spec_size() == n * tpc);
    vstd::arithmetic::div_mod::lemma_fundamental_div_mod(tpc, nb);
    assert(n * tpc == (n * per_core) * nb) by (nonlinear_arith)
        requires
            tpc == nb * per_core,
    ;
    assert(n * per_core >= 0) by (nonlinear_arith)
        requires
            n >= 1,
            per_core >= 0,
    ;
    vstd::arithmetic::div_mod::lemma_div_by_multiple(n * per_core, nb);
}

/// How many workers rendezvous at each barrier: the grid size divided by
/// the number of barrier groups. Always at least one.
pub fn barrier_group_size(grid: &GridConfig) -> (n: usize)
    requires
        grid.wf(),
    ensures
        n == grid.spec_size() / (grid.nbarriers as int),
        n >= 1,
{
    let total = grid.ncores * grid.threads_per_core;
    proof {
        assert(grid.threads_per_core >= grid.nbarriers) by (nonlinear_arith)
            requires
                grid.threads_per_core >= 1,
                grid.nbarriers >= 1,
                grid.threads_per_core % grid.nbarriers == 0,
        ;
        assert(grid.ncores * grid.threads_per_core >= grid.threads_per_core) by (nonlinear_arith)
            requires
                grid.ncores >= 1,
                grid.threads_per_core >= 0,
        ;
        assert(total / grid.nbarriers >= 1) by (nonlinear_arith)
            requires
                grid.nbarriers >= 1,
                total >= grid.nbarriers,
        ;
    }
    total / grid.nbarriers
}

} // verus!
