//! Validation of the command-line input into a structured run
//! configuration, before any thread exists. All arguments are checked
//! here; a run never starts on malformed input.

use vstd::prelude::*;
use crate::parse::int_literal_value;
use crate::parse::parse_int;
use crate::parse::parse_policy;
use crate::parse::spec_policy_of;
use crate::parse::spec_valid_int;
use crate::sched::SchedulingPolicy;

verus! {

/// Why the command-line input was rejected.
#[derive(Clone, Copy, Debug, PartialEq, Eq, Structural)]
pub enum UsageError {
    /// Fewer arguments than a policy, a round count, an iteration count and
    /// at least one number.
    TooFewArguments,
    /// The first argument names no known scheduling policy.
    UnknownPolicy,
    /// The argument at this position (counting from the policy at 0) is not
    /// a decimal integer that fits in an `i32`.
    BadInteger { index: usize },
}

/// The validated configuration of one benchmark run.
#[derive(Clone, Debug, PartialEq, Eq)]
pub struct RunConfig {
    pub policy: SchedulingPolicy,
    pub rounds: i32,
    pub iters: i32,
    pub numbers: Vec<i32>,
}

/// Whether the arguments (program name excluded) form a valid run: a known
/// policy name, then round and iteration counts, then one or more numbers,
/// every count and number a decimal `i32`.
pub open spec fn spec_args_valid(args: Seq<String>) -> bool {
    &&& args.len() >= 4
    &&& spec_policy_of(args[0]@) is Some
    &&& forall|i: int| 1 <= i < args.len() ==> spec_valid_int(args[i]@)
}

/// Validate the command-line arguments (program name excluded) into a run
/// configuration. Succeeds exactly on valid argument lists; each rejection
/// names its reason, and a bad integer the first offending position.
pub fn parse_args(args: &Vec<String>) -> (r: Result<RunConfig, UsageError>)
    ensures
        r is Ok <==> spec_args_valid(args@),
        r matches Ok(c) ==> {
            &&& Some(c.policy) == spec_policy_of(args@[0]@)
            &&& c.rounds == int_literal_value(args@[1]@)
            &&& c.iters == int_literal_value(args@[2]@)
            &&& c.numbers@.len() == args@.len() - 3
            &&& forall|k: int|
                0 <= k < c.numbers@.len() ==> c.numbers@[k] == int_literal_value(args@[3 + k]@)
        },
        r == Err::<RunConfig, UsageError>(UsageError::TooFewArguments) <==> args@.len() < 4,
        r == Err::<RunConfig, UsageError>(UsageError::UnknownPolicy) <==> args@.len() >= 4 && spec_policy_of(args@[0]@)
            is None,
        r matches Err(UsageError::BadInteger { index }) ==> {
            &&& args@.len() >= 4
            &&& spec_policy_of(args@[0]@) is Some
            &&& 1 <= index < args@.len()
            &&& !spec_valid_int(args@[index as int]@)
            &&& forall|j: int| 1 <= j < index ==> spec_valid_int(args@[j]@)
        },
{
    if args.len() < 4 {
        return Err(UsageError::TooFewArguments);
    }
    let policy = match parse_policy(args[0].as_str()) {
        Some(p) => p,
        None => {
            return Err(UsageError::UnknownPolicy);
        },
    };
    let rounds = match parse_int(args[1].as_str()) {
        Some(v) => v,
        None => {
            return Err(UsageError::BadInteger { index: 1 });
        },
    };
    let iters = match parse_int(args[2].as_str()) {
        Some(v) => v,
        None => {
            return Err(UsageError::BadInteger { index: 2 });
        },
    };
    let mut numbers: Vec<i32> = Vec::new();
    let mut i: usize = 3;
    while i < args.len()
        invariant
            3 <= i <= args@.len(),
            args@.len() >= 4,
            spec_policy_of(args@[0]@) is Some,
            forall|j: int| 1 <= j < i ==> spec_valid_int(args@[j]@),
            numbers@.len() == i - 3,
            forall|k: int|
                0 <= k < i - 3 ==> numbers@[k] == int_literal_value(args@[3 + k]@),
        decreases args@.len() - i,
    {
        match parse_int(args[i].as_str()) {
            Some(v) => {
                numbers.push(v);
            },
            None => {
                return Err(UsageError::BadInteger { index: i });
            },
        }
        i = i + 1;
    }
    Ok(RunConfig { policy, rounds, iters, numbers })
}

} // verus!
