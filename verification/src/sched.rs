//! CPU-affinity binding and scheduling-policy assignment.
//!
//! A worker thread first binds itself to one CPU, then sets its scheduling
//! class and priority. The priority comes from a small per-policy tier
//! table: real-time policies use a positive priority scale, the time-shared
//! policy uses a niceness scale, and the last tier is reserved for the
//! coordinating thread itself. The OS calls go through the `scheduler`
//! crate; a rejected call is surfaced as an error value, never ignored.

use vstd::prelude::*;

verus! {

/// The OS scheduling class a run is configured with.
#[derive(Clone, Copy, Debug, PartialEq, Eq, Structural)]
pub enum SchedulingPolicy {
    RoundRobin,
    Fifo,
    Other,
}

/// How many worker priority tiers there are.
pub const NPRIOS: usize = 2;

/// The tier reserved for the coordinating thread, one past the worker tiers.
pub const COORDINATOR_TIER: usize = 2;

/// The priority (for the real-time policies) or niceness (for the
/// time-shared policy) assigned to each tier: tier 0 is the high-priority
/// worker tier, tier 1 the low-priority worker tier, and the coordinator
/// tier outranks both so the launcher stays off the measured cores.
pub open spec fn spec_tier_value(policy: SchedulingPolicy, tier: nat) -> int {
    match policy {
        SchedulingPolicy::RoundRobin | SchedulingPolicy::Fifo => if tier == 0 {
            98
        } else if tier == 1 {
            90
        } else {
            99
        },
        SchedulingPolicy::Other => if tier == 0 {
            -5
        } else if tier == 1 {
            5
        } else {
            -10
        },
    }
}

/// Look up the priority or niceness value for a tier under a policy.
pub fn tier_value(policy: SchedulingPolicy, tier: usize) -> (p: i32)
    requires
        tier <= COORDINATOR_TIER,
    ensures
        p == spec_tier_value(policy, tier as nat),
{
    match policy {
        SchedulingPolicy::RoundRobin | SchedulingPolicy::Fifo => {
            if tier == 0 {
                98
            } else if tier == 1 {
                90
            } else {
                99
            }
        },
        SchedulingPolicy::Other => {
            if tier == 0 {
                -5
            } else if tier == 1 {
                5
            } else {
                -10
            }
        },
    }
}

/// The OS rejected a request to bind a thread to a CPU; carries the CPU the
/// binding was requested for.
#[derive(Clone, Copy, Debug, PartialEq, Eq, Structural)]
pub struct AffinityError {
    pub cpu: usize,
}

/// The OS rejected a request to set a thread's scheduling class or
/// priority; carries the policy and the priority value that were requested.
#[derive(Clone, Copy, Debug, PartialEq, Eq, Structural)]
pub struct PolicyError {
    pub policy: SchedulingPolicy,
    pub priority: i32,
}

/// Declares scheduler::CpuSet, the crate's CPU bitmask type, so values of
/// it can be carried opaquely from building a set to binding with it.
#[verifier::external_type_specification]
#[verifier::external_body]
pub struct ExCpuSet(scheduler::CpuSet);

/// The CPUs a `scheduler::CpuSet` has active.
pub uninterp spec fn cpu_set_cpus(s: scheduler::CpuSet) -> Set<nat>;

/// Relies on scheduler::CpuSet::single: a CPU set with exactly the one
/// given CPU active. The bound keeps the mask allocation the call makes
/// small and well away from any overflow in its size arithmetic.
#[verifier::external_body]
fn cpu_set_single(cpu: usize) -> (s: scheduler::CpuSet)
    requires
        cpu < 4096,
    ensures
        cpu_set_cpus(s) == Set::<nat>::empty().insert(cpu as nat),
{
    scheduler::CpuSet::single(cpu)
}

/// Relies on scheduler::set_self_affinity: asks the OS to restrict the
/// calling thread to the CPUs of the given set, via sched_setaffinity.
/// Ok exactly when the OS accepted; whether it does depends on the machine
/// and on privileges, so nothing more is promised of either outcome.
#[verifier::external_body]
fn set_self_affinity_raw(cpus: scheduler::CpuSet) -> (r: Result<(), ()>) {
    scheduler::set_self_affinity(cpus)
}

/// Relies on scheduler::set_self_policy: asks the OS to set the calling
/// thread's scheduling class and priority, via sched_setscheduler. Ok
/// exactly when the OS accepted; whether it does depends on privileges, so
/// nothing more is promised of either outcome.
#[verifier::external_body]
fn set_self_policy_raw(policy: SchedulingPolicy, priority: i32) -> (r: Result<(), ()>) {
    let p = match policy {
        SchedulingPolicy::RoundRobin => scheduler::Policy::RoundRobin,
        SchedulingPolicy::Fifo => scheduler::Policy::Fifo,
        SchedulingPolicy::Other => scheduler::Policy::Other,
    };
    scheduler::set_self_policy(p, priority)
}

/// Bind the calling thread's execution to exactly the CPU `cpu_number`.
/// The OS decides whether to accept; a rejection is surfaced as an
/// `AffinityError` carrying the requested CPU, never silently dropped.
pub fn bind_cpu(cpu_number: usize) -> (r: Result<(), AffinityError>)
    requires
        cpu_number < 4096,
    ensures
        r matches Err(e) ==> e == (AffinityError { cpu: cpu_number }),
{
    let cpu = cpu_set_single(cpu_number);
    match set_self_affinity_raw(cpu) {
        Ok(()) => Ok(()),
        Err(()) => Err(AffinityError { cpu: cpu_number }),
    }
}

/// Set the calling thread's scheduling class to `policy` and its priority
/// to the value of tier `tid` under that policy. The OS decides whether to
/// accept; a rejection is surfaced as a `PolicyError` carrying the policy
/// and the priority that were requested, never silently dropped.
pub fn set_sched(policy: SchedulingPolicy, tid: usize) -> (r: Result<(), PolicyError>)
    requires
        tid <= COORDINATOR_TIER,
    ensures
        r matches Err(e) ==> e == (PolicyError {
            policy,
            priority: spec_tier_value(policy, tid as nat) as i32,
        }),
{
    let prio = tier_value(policy, tid);
    match set_self_policy_raw(policy, prio) {
        Ok(()) => Ok(()),
        Err(()) => Err(PolicyError { policy, priority: prio }),
    }
}

} // verus!
