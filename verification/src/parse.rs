//! Parsing of the command-line inputs: decimal integers and the name of the
//! scheduling policy. Malformed input is reported, never panicked on.

use vstd::prelude::*;
use crate::sched::SchedulingPolicy;

verus! {

/// Whether `c` is a decimal digit (the code points 48 through 57 are
/// `'0'` through `'9'`).
pub open spec fn is_digit_char(c: char) -> bool {
    48 <= c as int <= 57
}

/// The numeric value of a decimal digit.
pub open spec fn digit_value(c: char) -> int {
    c as int - 48
}

/// Whether every character of `s` is a decimal digit.
pub open spec fn all_digits(s: Seq<char>) -> bool {
    forall|i: int| 0 <= i < s.len() ==> is_digit_char(s[i])
}

/// The value of a sequence of decimal digits, most significant first.
pub open spec fn digits_value(s: Seq<char>) -> int
    decreases s.len(),
{
    if s.len() == 0 {
        0
    } else {
        digits_value(s.drop_last()) * 10 + digit_value(s.last())
    }
}

/// The digits of an integer literal: everything after the sign, if any.
pub open spec fn digits_part(s: Seq<char>) -> Seq<char> {
    if s.len() >= 1 && (s[0] == '-' || s[0] == '+') {
        s.subrange(1, s.len() as int)
    } else {
        s
    }
}

/// Whether `s` reads as a decimal integer literal: an optional sign
/// followed by at least one digit and nothing else.
pub open spec fn is_int_literal(s: Seq<char>) -> bool {
    &&& digits_part(s).len() >= 1
    &&& all_digits(digits_part(s))
}

/// The mathematical value of an integer literal.
pub open spec fn int_literal_value(s: Seq<char>) -> int {
    if s.len() >= 1 && s[0] == '-' {
        -digits_value(digits_part(s))
    } else {
        digits_value(digits_part(s))
    }
}

/// A digit string has a value of at least zero.
pub proof fn lemma_digits_value_nonneg(s: Seq<char>)
    requires
        all_digits(s),
    ensures
        digits_value(s) >= 0,
    decreases s.len(),
{
    if s.len() > 0 {
        lemma_digits_value_nonneg(s.drop_last());
    }
}

/// Extending a digit string on the right multiplies its value by ten and
/// adds the new digit.
pub proof fn lemma_digits_value_step(s: Seq<char>, m: int)
    requires
        0 <= m < s.len(),
    ensures
        digits_value(s.take(m + 1)) == digits_value(s.take(m)) * 10 + digit_value(s[m]),
{
    assert(s.take(m + 1).drop_last() =~= s.take(m));
    assert(s.take(m + 1).last() == s[m]);
}

/// A digit string is worth at least any of its prefixes: appending digits
/// never shrinks the value.
pub proof fn lemma_digits_value_prefix(s: Seq<char>, m: int)
    requires
        all_digits(s),
        0 <= m <= s.len(),
    ensures
        digits_value(s) >= digits_value(s.take(m)),
    decreases s.len(),
{
    lemma_digits_value_nonneg(s.take(m));
    if m < s.len() {
        assert(s.drop_last().take(m) =~= s.take(m));
        lemma_digits_value_prefix(s.drop_last(), m);
        assert(s.take(s.len() as int) =~= s);
        lemma_digits_value_nonneg(s.drop_last());
    } else {
        assert(s.take(m) =~= s);
    }
}

/// Whether `s` is an integer literal whose value fits in an `i32`: exactly
/// the strings `parse_int` accepts.
pub open spec fn spec_valid_int(s: Seq<char>) -> bool {
    &&& is_int_literal(s)
    &&& i32::MIN <= int_literal_value(s) <= i32::MAX
}

/// Parse a decimal integer. Returns the value exactly when the whole string
/// is an integer literal — an optional `+` or `-` sign followed by one or
/// more digits — whose value fits in an `i32`; returns `None` otherwise.
pub fn parse_int(s: &str) -> (r: Option<i32>)
    ensures
        r is Some <==> spec_valid_int(s@),
        r matches Some(n) ==> n == int_literal_value(s@),
{
    let n = s.unicode_len();
    if n == 0 {
        return None;
    }
    let first = s.get_char(0);
    let neg = first == '-';
    let start: usize = if first == '-' || first == '+' {
        1
    } else {
        0
    };
    if n == start {
        // A bare sign has no digits.
        return None;
    }
    let ghost ds = digits_part(s@);
    proof {
        assert(ds =~= s@.subrange(start as int, n as int));
    }
    // The magnitude seen so far; capped at 2^31 so it never overflows and
    // so that the moment it would pass 2^31 the literal is out of range
    // for an i32 of either sign.
    let mut acc: i64 = 0;
    let mut i: usize = start;
    while i < n
        invariant
            start <= i <= n,
            start == 0 || start == 1,
            n == s@.len(),
            start == 1 ==> (s@[0] == '-' || s@[0] == '+'),
            start == 0 ==> ds == s@,
            start == 1 ==> ds == s@.subrange(1, n as int),
            ds == digits_part(s@),
            ds.len() == n - start,
            forall|j: int| 0 <= j < i - start ==> is_digit_char(ds[j]),
            acc == digits_value(ds.take(i - start)),
            0 <= acc <= 0x8000_0000,
        decreases n - i,
    {
        let c = s.get_char(i);
        let cv = c as u32;
        proof {
            assert(ds[i - start] == s@[i as int]);
        }
        if cv < 48 || cv > 57 {
            // A non-digit after the sign: not an integer literal.
            proof {
                assert(!is_digit_char(ds[i - start]));
            }
            return None;
        }
        let d = (cv - 48) as i64;
        proof {
            assert(d == digit_value(ds[i - start]));
            lemma_digits_value_step(ds, i - start);
        }
        acc = acc * 10 + d;
        if acc > 0x8000_0000 {
            // Even this prefix is past 2^31, and further digits only grow
            // the magnitude, so the value cannot fit in an i32.
            proof {
                assert(acc == digits_value(ds.take(i + 1 - start)));
                if all_digits(ds) {
                    lemma_digits_value_prefix(ds, i + 1 - start);
                    assert(digits_value(ds) > 0x8000_0000);
                }
            }
            return None;
        }
        i = i + 1;
    }
    proof {
        assert(ds.take(n - start) =~= ds);
    }
    if neg {
        let v: i64 = -acc;
        Some(v as i32)
    } else {
        if acc > 0x7fff_ffff {
            return None;
        }
        Some(acc as i32)
    }
}

/// Whether two strings hold the same characters.
pub fn str_eq(a: &str, b: &str) -> (r: bool)
    ensures
        r <==> a@ == b@,
{
    let an = a.unicode_len();
    let bn = b.unicode_len();
    if an != bn {
        return false;
    }
    let mut i: usize = 0;
    while i < an
        invariant
            0 <= i <= an,
            an == a@.len(),
            bn == b@.len(),
            an == bn,
            forall|j: int| 0 <= j < i ==> a@[j] == b@[j],
        decreases an - i,
    {
        if a.get_char(i) != b.get_char(i) {
            return false;
        }
        i = i + 1;
    }
    proof {
        assert(a@ =~= b@);
    }
    true
}

/// The policy a command-line name selects: `SCHED_RR`, `SCHED_FIFO`, or the
/// synonymous `SCHED_OTHER` and `SCHED_NORMAL`; any other name is unknown.
pub open spec fn spec_policy_of(s: Seq<char>) -> Option<SchedulingPolicy> {
    if s == "SCHED_RR"@ {
        Some(SchedulingPolicy::RoundRobin)
    } else if s == "SCHED_FIFO"@ {
        Some(SchedulingPolicy::Fifo)
    } else if s == "SCHED_OTHER"@ || s == "SCHED_NORMAL"@ {
        Some(SchedulingPolicy::Other)
    } else {
        None
    }
}

/// Parse a scheduling-policy name.
pub fn parse_policy(s: &str) -> (r: Option<SchedulingPolicy>)
    ensures
        r == spec_policy_of(s@),
{
    if str_eq(s, "SCHED_RR") {
        Some(SchedulingPolicy::RoundRobin)
    } else if str_eq(s, "SCHED_FIFO") {
        Some(SchedulingPolicy::Fifo)
    } else if str_eq(s, "SCHED_OTHER") || str_eq(s, "SCHED_NORMAL") {
        Some(SchedulingPolicy::Other)
    } else {
        None
    }
}

} // verus!
