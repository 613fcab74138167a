use sched_bench::config::{parse_args, RunConfig, UsageError};
use sched_bench::parse::{parse_int, parse_policy, str_eq};
use sched_bench::sched::SchedulingPolicy;
use sched_bench::usage;

fn args(list: &[&str]) -> Vec<String> {
    list.iter().map(|s| s.to_string()).collect()
}

#[test]
fn usage_names_the_arguments() {
    assert_eq!(usage(), "./lab_2 <scheduler> <rounds> <iterations> <number>+");
}

#[test]
fn parse_int_plain_values() {
    assert_eq!(parse_int("0"), Some(0));
    assert_eq!(parse_int("42"), Some(42));
    assert_eq!(parse_int("-7"), Some(-7));
    assert_eq!(parse_int("+5"), Some(5));
    assert_eq!(parse_int("007"), Some(7));
    assert_eq!(parse_int("-0"), Some(0));
}

#[test]
fn parse_int_limits() {
    assert_eq!(parse_int("2147483647"), Some(i32::MAX));
    assert_eq!(parse_int("-2147483648"), Some(i32::MIN));
    assert_eq!(parse_int("2147483648"), None);
    assert_eq!(parse_int("-2147483649"), None);
    assert_eq!(parse_int("99999999999999999999"), None);
}

#[test]
fn parse_int_rejects_malformed() {
    assert_eq!(parse_int(""), None);
    assert_eq!(parse_int("-"), None);
    assert_eq!(parse_int("+"), None);
    assert_eq!(parse_int("12a"), None);
    assert_eq!(parse_int("a12"), None);
    assert_eq!(parse_int(" 12"), None);
    assert_eq!(parse_int("12 "), None);
    assert_eq!(parse_int("1.5"), None);
    assert_eq!(parse_int("--3"), None);
    assert_eq!(parse_int("+-3"), None);
}

#[test]
fn str_eq_compares_contents() {
    assert!(str_eq("SCHED_RR", "SCHED_RR"));
    assert!(!str_eq("SCHED_RR", "SCHED_FIFO"));
    assert!(!str_eq("SCHED_RR", "SCHED_R"));
    assert!(str_eq("", ""));
}

#[test]
fn parse_policy_known_names() {
    assert_eq!(parse_policy("SCHED_RR"), Some(SchedulingPolicy::RoundRobin));
    assert_eq!(parse_policy("SCHED_FIFO"), Some(SchedulingPolicy::Fifo));
    assert_eq!(parse_policy("SCHED_OTHER"), Some(SchedulingPolicy::Other));
    assert_eq!(parse_policy("SCHED_NORMAL"), Some(SchedulingPolicy::Other));
}

#[test]
fn parse_policy_rejects_unknown_names() {
    assert_eq!(parse_policy("SCHED_BOGUS"), None);
    assert_eq!(parse_policy("sched_rr"), None);
    assert_eq!(parse_policy(""), None);
}

#[test]
fn parse_args_valid_run() {
    let a = args(&["SCHED_RR", "3", "1000", "2", "4", "6"]);
    let c: RunConfig = parse_args(&a).unwrap();
    assert_eq!(c.policy, SchedulingPolicy::RoundRobin);
    assert_eq!(c.rounds, 3);
    assert_eq!(c.iters, 1000);
    assert_eq!(c.numbers, vec![2, 4, 6]);
}

#[test]
fn parse_args_one_number_is_enough() {
    let a = args(&["SCHED_FIFO", "2", "10", "5"]);
    let c = parse_args(&a).unwrap();
    assert_eq!(c.policy, SchedulingPolicy::Fifo);
    assert_eq!(c.numbers, vec![5]);
}

#[test]
fn bogus_policy_rejected_before_any_thread_work() {
    // An invalid policy name is refused by pure validation: nothing of the
    // run — barriers, sources, threads — is ever constructed.
    let a = args(&["SCHED_BOGUS", "3", "1000", "2", "4", "6"]);
    assert_eq!(parse_args(&a), Err(UsageError::UnknownPolicy));
}

#[test]
fn zero_numbers_is_a_usage_error() {
    let a = args(&["SCHED_RR", "3", "1000"]);
    assert_eq!(parse_args(&a), Err(UsageError::TooFewArguments));
}

#[test]
fn empty_argument_list_is_a_usage_error() {
    let a: Vec<String> = Vec::new();
    assert_eq!(parse_args(&a), Err(UsageError::TooFewArguments));
}

#[test]
fn bad_round_count_names_its_position() {
    let a = args(&["SCHED_RR", "three", "1000", "2"]);
    assert_eq!(parse_args(&a), Err(UsageError::BadInteger { index: 1 }));
}

#[test]
fn bad_iteration_count_names_its_position() {
    let a = args(&["SCHED_RR", "3", "many", "2"]);
    assert_eq!(parse_args(&a), Err(UsageError::BadInteger { index: 2 }));
}

#[test]
fn first_bad_number_names_its_position() {
    let a = args(&["SCHED_RR", "3", "1000", "2", "x", "y"]);
    assert_eq!(parse_args(&a), Err(UsageError::BadInteger { index: 4 }));
}
