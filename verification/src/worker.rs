//! The per-thread work loop: repeatedly draw one value from the shared
//! work source and burn a fixed amount of CPU on it.
//!
//! The burn is pure CPU occupation — the cube of the drawn value, computed
//! over and over and discarded — so the only shared resource the workers
//! contend for is the work-source cursor.

use vstd::prelude::*;
use crate::work::SourceView;
use crate::work::WorkSource;
use crate::work::lemma_draws_add;

verus! {

/// One fixed-cost compute step: the wrapped cube of `x`.
pub open spec fn spec_cube(x: i32) -> i32 {
    x.wrapping_mul(x).wrapping_mul(x)
}

/// Occupy the CPU by computing the cube of `x`, `iters` times over. The
/// result of every repetition but the last is discarded; with no repetition
/// at all the input comes back unchanged.
pub fn burn(x: i32, iters: i32) -> (y: i32)
    ensures
        iters > 0 ==> y == spec_cube(x),
        iters <= 0 ==> y == x,
{
    let mut y = x;
    let mut i: i32 = 0;
    while i < iters
        invariant
            0 <= i,
            i <= iters || iters <= 0,
            iters <= 0 ==> i == 0,
            i > 0 ==> y == spec_cube(x),
            i == 0 ==> y == x,
        decreases iters - i,
    {
        y = x.wrapping_mul(x).wrapping_mul(x);
        i = i + 1;
    }
    y
}

/// The work loop of one worker after its barrier releases: `rounds` times,
/// draw one value from the shared source and burn `iters` compute steps on
/// it. Returns the drawn values, which are exactly the next `rounds` draws
/// of the round-robin sequence; the source advances by exactly `rounds`
/// positions.
pub fn run_rounds(source: &mut WorkSource, rounds: i32, iters: i32) -> (drawn: Vec<i32>)
    requires
        old(source)@.wf(),
        rounds >= 0,
    ensures
        final(source)@ == old(source)@.advances(rounds as nat),
        drawn@ == old(source)@.draws(rounds as nat),
{
    let ghost s0: SourceView = source@;
    let mut drawn: Vec<i32> = Vec::new();
    let mut i: i32 = 0;
    while i < rounds
        invariant
            0 <= i <= rounds,
            source@.wf(),
            source@ == s0.advances(i as nat),
            drawn@ == s0.draws(i as nat),
        decreases rounds - i,
    {
        let v = source.next();
        let _ = burn(v, iters);
        drawn.push(v);
        proof {
            let si = s0.advances(i as nat);
            lemma_draws_add(s0, i as nat, 1);
            assert(si.advances(1) == si.advance().advances(0));
            assert(si.advance().advances(0) == si.advance());
            assert(si.advance().draws(0) =~= Seq::<i32>::empty());
            assert(si.draws(1) =~= seq![si.draw_value()]);
            assert(s0.advances((i + 1) as nat) == si.advance());
            assert(s0.draws((i + 1) as nat) =~= s0.draws(i as nat) + seq![v]);
        }
        i = i + 1;
    }
    drawn
}

} // verus!
