//! A reusable counting rendezvous barrier.
//!
//! The barrier releases a fixed-size group of participants at once: each
//! arrival increments a counter, and the arrival that completes the group
//! resets the counter and advances a generation stamp, which is the release
//! signal the other participants watch for. The protocol state and its
//! transitions are modelled by [`BarrierView`]; each call to
//! [`SpinBarrier::wait`] performs exactly one arrival transition.

use vstd::prelude::*;

verus! {

/// The protocol state of a rendezvous barrier: group size, release epoch,
/// and the number of participants counted in the current epoch.
pub struct BarrierView {
    pub nthreads: nat,
    pub generation: nat,
    pub arrived: nat,
}

impl BarrierView {
    /// A barrier always has at least one participant, and the arrival count
    /// resets before it ever reaches the group size.
    pub open spec fn wf(self) -> bool {
        &&& self.nthreads >= 1
        &&& self.arrived < self.nthreads
    }

    /// Whether the next arrival completes the group and releases it.
    pub open spec fn next_releases(self) -> bool {
        self.arrived + 1 == self.nthreads
    }

    /// One participant arrives: either it completes the group, resetting the
    /// arrival count and advancing the generation, or it joins the waiters.
    pub open spec fn arrive(self) -> BarrierView {
        if self.next_releases() {
            BarrierView { generation: self.generation + 1, arrived: 0, ..self }
        } else {
            BarrierView { arrived: self.arrived + 1, ..self }
        }
    }

    /// The state after `k` consecutive arrivals.
    pub open spec fn arrivals(self, k: nat) -> BarrierView
        decreases k,
    {
        if k == 0 {
            self
        } else {
            self.arrivals((k - 1) as nat).arrive()
        }
    }
}

/// A reusable counting barrier. `wait` performs one arrival; the caller that
/// completes the group advances the generation, which signals the release.
pub struct SpinBarrier {
    nthreads: usize,
    generation: u64,
    nspinning: usize,
}

impl View for SpinBarrier {
    type V = BarrierView;

    closed spec fn view(&self) -> BarrierView {
        BarrierView {
            nthreads: self.nthreads as nat,
            generation: self.generation as nat,
            arrived: self.nspinning as nat,
        }
    }
}

impl SpinBarrier {
    /// A fresh barrier for a group of `nthreads` participants: generation 0,
    /// nobody arrived yet.
    pub fn new(nthreads: usize) -> (b: SpinBarrier)
        requires
            1 <= nthreads,
        ensures
            b@ == (BarrierView { nthreads: nthreads as nat, generation: 0, arrived: 0 }),
            b@.wf(),
    {
        SpinBarrier { nthreads, generation: 0, nspinning: 0 }
    }

    /// One participant arrives at the barrier. The arrival that completes the
    /// group resets the arrival count, advances the generation by exactly one
    /// and returns `true`; every other arrival only joins the waiters and
    /// returns `false`. The generation never moves otherwise, so no group is
    /// ever released before all of its participants have arrived.
    pub fn wait(&mut self) -> (released: bool)
        requires
            old(self)@.wf(),
            old(self)@.generation < u64::MAX,
        ensures
            final(self)@ == old(self)@.arrive(),
            final(self)@.wf(),
            released == old(self)@.next_releases(),
    {
        if self.nspinning == self.nthreads - 1 {
            self.nspinning = 0;
            self.generation = self.generation + 1;
            true
        } else {
            self.nspinning = self.nspinning + 1;
            false
        }
    }

    /// The current release epoch.
    pub fn generation(&self) -> (g: u64)
        ensures
            g as nat == self@.generation,
    {
        self.generation
    }

    /// How many participants are counted in the current epoch.
    pub fn arrived(&self) -> (n: usize)
        ensures
            n as nat == self@.arrived,
    {
        self.nspinning
    }

    /// The size of the group this barrier rendezvouses.
    pub fn group_size(&self) -> (n: usize)
        ensures
            n as nat == self@.nthreads,
    {
        self.nthreads
    }
}

/// Consecutive arrivals compose: `a + b` arrivals are `a` arrivals followed
/// by `b` more.
pub proof fn lemma_arrivals_add(s: BarrierView, a: nat, b: nat)
    ensures
        s.arrivals(a + b) == s.arrivals(a).arrivals(b),
    decreases b,
{
    if b > 0 {
        lemma_arrivals_add(s, a, (b - 1) as nat);
        assert(a + b - 1 == a + (b - 1));
    }
}

/// Law: one round of a barrier for a group of `N` participants, starting with
/// nobody arrived. Fewer than `N` arrivals only accumulate waiters and leave
/// the generation untouched — no participant is released early; exactly `N`
/// arrivals advance the generation by exactly one and reset the arrival
/// count, leaving the barrier ready for the next round.
pub proof fn lemma_barrier_round(s: BarrierView, k: nat)
    requires
        s.wf(),
        s.arrived == 0,
        k <= s.nthreads,
    ensures
        k < s.nthreads ==> s.arrivals(k) == (BarrierView { arrived: k, ..s }),
        k == s.nthreads ==> s.arrivals(k) == (BarrierView {
            generation: s.generation + 1,
            arrived: 0,
            ..s
        }),
    decreases k,
{
    if k > 0 {
        lemma_barrier_round(s, (k - 1) as nat);
    }
}

/// Law: a barrier never releases early. From the start of a round, as long
/// as fewer participants than the group size have arrived, the generation —
/// the release signal — is unchanged.
pub proof fn lemma_no_early_release(s: BarrierView, k: nat)
    requires
        s.wf(),
        s.arrived == 0,
        k < s.nthreads,
    ensures
        s.arrivals(k).generation == s.generation,
{
    lemma_barrier_round(s, k);
}

/// Law: the barrier is reusable without reset. A full round of `N` arrivals
/// advances the generation by exactly one, and a second full round advances
/// it by exactly one more, from the same ready state.
pub proof fn lemma_barrier_reusable(s: BarrierView)
    requires
        s.wf(),
        s.arrived == 0,
    ensures
        s.arrivals(s.nthreads) == (BarrierView { generation: s.generation + 1, ..s }),
        s.arrivals(2 * s.nthreads) == (BarrierView { generation: s.generation + 2, ..s }),
{
    lemma_barrier_round(s, s.nthreads);
    lemma_arrivals_add(s, s.nthreads, s.nthreads);
    lemma_barrier_round(s.arrivals(s.nthreads), s.nthreads);
}

/// Law: the generation only ever advances. From any well-formed state, any
/// number of arrivals leaves the generation at least where it was, preserves
/// well-formedness, and never changes the group size.
pub proof fn lemma_generation_monotonic(s: BarrierView, k: nat)
    requires
        s.wf(),
    ensures
        s.arrivals(k).wf(),
        s.arrivals(k).generation >= s.generation,
        s.arrivals(k).nthreads == s.nthreads,
    decreases k,
{
    if k > 0 {
        lemma_generation_monotonic(s, (k - 1) as nat);
    }
}

} // verus!
