//! A micro-benchmark harness core for observing OS thread-scheduling
//! policies: a reusable rendezvous barrier, CPU-affinity binding,
//! per-thread policy/priority assignment, and a shared round-robin
//! work source.

pub mod barrier;
pub mod config;
pub mod coordinator;
pub mod parse;
pub mod sched;
pub mod work;
pub mod worker;

use vstd::prelude::*;

verus! {

/// Usage string for the command-line front end.
pub fn usage() -> (s: &'static str)
    ensures
        s@ == "./lab_2 <scheduler> <rounds> <iterations> <number>+"@,
{
    "./lab_2 <scheduler> <rounds> <iterations> <number>+"
}

} // verus!
