//! The shared work source: an immutable ordered list of integers and a
//! cursor, handed out round-robin.
//!
//! Each draw returns the value under the cursor and advances the cursor by
//! one, modulo the list length. The draw sequence is therefore deterministic
//! round robin over the list: it depends only on the list and the starting
//! cursor, never on which caller takes which draw, as long as each draw holds
//! the cursor exclusively. [`SourceView`] models the state; each call to
//! [`WorkSource::next`] performs exactly one draw.

use vstd::prelude::*;
use vstd::arithmetic::div_mod::lemma_add_mod_noop_right;
use vstd::arithmetic::div_mod::lemma_small_mod;

verus! {

/// The state of a work source: the fixed list of values and the cursor of
/// the next value to hand out.
pub struct SourceView {
    pub values: Seq<i32>,
    pub cursor: nat,
}

impl SourceView {
    /// A work source always holds at least one value, and its cursor always
    /// points at one of them.
    pub open spec fn wf(self) -> bool {
        &&& self.values.len() >= 1
        &&& self.cursor < self.values.len()
    }

    /// The value the next draw returns.
    pub open spec fn draw_value(self) -> i32 {
        self.values[self.cursor as int]
    }

    /// The state after one draw: the cursor advances by one, modulo the
    /// list length; the values never change.
    pub open spec fn advance(self) -> SourceView {
        SourceView { cursor: (self.cursor + 1) % self.values.len(), ..self }
    }

    /// The state after `n` draws.
    pub open spec fn advances(self, n: nat) -> SourceView
        decreases n,
    {
        if n == 0 {
            self
        } else {
            self.advance().advances((n - 1) as nat)
        }
    }

    /// The values of the next `n` draws, in order.
    pub open spec fn draws(self, n: nat) -> Seq<i32>
        decreases n,
    {
        if n == 0 {
            Seq::empty()
        } else {
            seq![self.draw_value()] + self.advance().draws((n - 1) as nat)
        }
    }
}

/// A work source: a fixed list of values and an exclusively held cursor.
/// `next` draws the value under the cursor and advances it round-robin.
pub struct WorkSource {
    values: Vec<i32>,
    cursor: usize,
}

impl View for WorkSource {
    type V = SourceView;

    closed spec fn view(&self) -> SourceView {
        SourceView { values: self.values@, cursor: self.cursor as nat }
    }
}

impl WorkSource {
    /// A fresh source over `values`, with the cursor at the first value.
    pub fn new(values: Vec<i32>) -> (s: WorkSource)
        requires
            values@.len() >= 1,
        ensures
            s@ == (SourceView { values: values@, cursor: 0 }),
            s@.wf(),
    {
        WorkSource { values, cursor: 0 }
    }

    /// Draw one value: return the value under the cursor and advance the
    /// cursor by one, modulo the list length. The list itself never changes.
    pub fn next(&mut self) -> (v: i32)
        requires
            old(self)@.wf(),
        ensures
            final(self)@ == old(self)@.advance(),
            final(self)@.wf(),
            v == old(self)@.draw_value(),
    {
        let len = self.values.len();
        let v = self.values[self.cursor];
        self.cursor = (self.cursor + 1) % len;
        v
    }

    /// How many values the source cycles over.
    pub fn len(&self) -> (n: usize)
        ensures
            n == self@.values.len(),
    {
        self.values.len()
    }

    /// The position of the next value to be handed out.
    pub fn cursor(&self) -> (c: usize)
        ensures
            c as nat == self@.cursor,
    {
        self.cursor
    }
}

/// Drawing preserves the list and keeps the cursor in range; after `n` draws
/// the cursor sits exactly `n` positions further, modulo the list length.
pub proof fn lemma_advances(s: SourceView, n: nat)
    requires
        s.wf(),
    ensures
        s.advances(n).wf(),
        s.advances(n).values == s.values,
        s.advances(n).cursor == (s.cursor + n) % s.values.len(),
    decreases n,
{
    let len = s.values.len() as int;
    if n == 0 {
        lemma_small_mod(s.cursor, s.values.len());
    } else {
        lemma_advances(s.advance(), (n - 1) as nat);
        lemma_add_mod_noop_right((n - 1) as int, (s.cursor + 1) as int, len);
    }
}

/// Law: the draw sequence is strict round robin. Whatever `n` is and however
/// the `n` draws are divided among callers, there are exactly `n` of them and
/// the `k`-th draw is the value `k` positions past the starting cursor,
/// modulo the list length — no value is skipped or handed out twice relative
/// to that order.
pub proof fn lemma_draws_round_robin(s: SourceView, n: nat, k: nat)
    requires
        s.wf(),
        k < n,
    ensures
        s.draws(n).len() == n,
        s.draws(n)[k as int] == s.values[(((s.cursor + k) % s.values.len()) as int)],
    decreases n,
{
    let len = s.values.len() as int;
    lemma_draws_len(s, n);
    if k == 0 {
        lemma_small_mod(s.cursor, s.values.len());
    } else {
        lemma_draws_round_robin(s.advance(), (n - 1) as nat, (k - 1) as nat);
        lemma_add_mod_noop_right((k - 1) as int, (s.cursor + 1) as int, len);
    }
}

/// `n` draws produce exactly `n` values.
pub proof fn lemma_draws_len(s: SourceView, n: nat)
    ensures
        s.draws(n).len() == n,
    decreases n,
{
    if n > 0 {
        lemma_draws_len(s.advance(), (n - 1) as nat);
    }
}

/// Consecutive draws compose: `a + b` draws are `a` draws followed by `b`
/// draws from the advanced source. Any interleaving of callers splits into
/// single draws this way.
pub proof fn lemma_draws_add(s: SourceView, a: nat, b: nat)
    ensures
        s.draws(a + b) == s.draws(a) + s.advances(a).draws(b),
        s.advances(a + b) == s.advances(a).advances(b),
    decreases a,
{
    if a == 0 {
        assert(s.draws(0 + b) =~= s.draws(0) + s.advances(0).draws(b));
    } else {
        lemma_draws_add(s.advance(), (a - 1) as nat, b);
        assert((a + b - 1) as nat == (a - 1) as nat + b);
        assert(s.draws(a + b) =~= s.draws(a) + s.advances(a).draws(b));
    }
}

/// Law: one full cycle of draws returns each value exactly once — the values
/// from the cursor to the end, then the values before the cursor — and puts
/// the source back in its starting state, so the draw after a full cycle
/// repeats the first draw.
pub proof fn lemma_full_cycle(s: SourceView)
    requires
        s.wf(),
    ensures
        s.draws(s.values.len()) =~= s.values.subrange(s.cursor as int, s.values.len() as int)
            + s.values.subrange(0, s.cursor as int),
        s.advances(s.values.len()) == s,
        s.draws(s.values.len() + 1)[s.values.len() as int] == s.draw_value(),
{
    let len = s.values.len();
    let c = s.cursor;
    assert forall|k: nat| k < len implies s.draws(len)[k as int] == (s.values.subrange(
        c as int,
        len as int,
    ) + s.values.subrange(0, c as int))[k as int] by {
        lemma_draws_round_robin(s, len, k);
        if k < len - c {
            lemma_small_mod((c + k) as nat, len);
        } else {
            assert(c + k == len + (c + k - len));
            lemma_small_mod((c + k - len) as nat, len);
            vstd::arithmetic::div_mod::lemma_mod_add_multiples_vanish(
                (c + k - len) as int,
                len as int,
            );
        }
    }
    lemma_draws_len(s, len);
    lemma_advances(s, len);
    vstd::arithmetic::div_mod::lemma_mod_add_multiples_vanish(c as int, len as int);
    lemma_small_mod(c, len);
    assert(s.advances(len) == s);
    lemma_draws_round_robin(s, (len + 1) as nat, len);
}

/// Law applied to a fresh source: the first `L` draws are exactly the list,
/// in order, each value exactly once, and the `L + 1`-th draw wraps to the
/// first value.
pub proof fn lemma_fresh_cycle(values: Seq<i32>)
    requires
        values.len() >= 1,
    ensures
        (SourceView { values, cursor: 0 }).draws(values.len()) =~= values,
        (SourceView { values, cursor: 0 }).draws(values.len() + 1)[values.len() as int]
            == values[0],
{
    let s = SourceView { values, cursor: 0 };
    lemma_full_cycle(s);
    assert(values.subrange(0, values.len() as int) + values.subrange(0, 0) =~= values);
}

} // verus!
