//! Seed resolution.
//!
//! A seed is an unsigned 32-bit value steering the engine's pseudo-random
//! decisions.  A caller may supply one explicitly (deterministic
//! reproduction), or leave it out, in which case the value is drawn from a
//! shared counter: monotonically issued integers starting at 0, wrapping
//! after 2^32 draws, so that no two implicit draws in the same lifetime of
//! the counter reuse a seed short of the documented wraparound.

use vstd::prelude::*;
use vstd::arithmetic::div_mod::{
    lemma_fundamental_div_mod, lemma_fundamental_div_mod_converse_mod, lemma_mod_bound,
    lemma_mod_equivalence, lemma_mod_multiples_basic, lemma_small_mod,
};

verus! {

/// The counter value after one implicit draw from `x`: increment, wrapping
/// at 2^32.
pub open spec fn wrap_inc(x: u32) -> u32 {
    if x == 0xffff_ffffu32 {
        0u32
    } else {
        (x + 1) as u32
    }
}

/// The seed a request resolves to: the explicit value itself when one was
/// given, else the counter's next value.
pub open spec fn resolved_seed(explicit: Option<u32>, next: u32) -> u32 {
    match explicit {
        Some(s) => s,
        None => next,
    }
}

/// The counter's next value after one resolution: untouched for an explicit
/// seed, advanced by one (wrapping) for an implicit draw.
pub open spec fn counter_after(explicit: Option<u32>, next: u32) -> u32 {
    match explicit {
        Some(_) => next,
        None => wrap_inc(next),
    }
}

/// The seed returned by the `k`-th implicit draw (counting from 0) of a
/// counter whose next value was `start`.
pub open spec fn nth_implicit_seed(start: u32, k: nat) -> u32
    decreases k,
{
    if k == 0 {
        start
    } else {
        wrap_inc(nth_implicit_seed(start, (k - 1) as nat))
    }
}

/// The process-wide source of implicit seeds.
///
/// The original lifecycle is process-wide shared state created lazily and
/// never torn down; here it is an explicit value so that a caller (or a
/// test) owns the instance and its lifetime.  Exclusive access for a draw is
/// expressed through `&mut`; a multi-threaded caller keeps the counter
/// behind its own synchronization.
pub struct SeedCounter {
    next: u32,
}

impl SeedCounter {
    /// The seed the next implicit draw will return.
    pub closed spec fn next_seed(&self) -> u32 {
        self.next
    }

    /// A fresh counter: implicit seeds start at 0.
    pub fn new() -> (c: SeedCounter)
        ensures
            c.next_seed() == 0,
    {
        SeedCounter { next: 0u32 }
    }

    /// A counter resumed at an arbitrary next value, for callers that manage
    /// the counter's lifecycle themselves (and for exercising wraparound).
    pub fn starting_at(next: u32) -> (c: SeedCounter)
        ensures
            c.next_seed() == next,
    {
        SeedCounter { next }
    }

    /// Resolve a seed request: return an explicit seed unchanged, with no
    /// side effect on the counter; otherwise return the counter's next value
    /// and advance it by one, wrapping at 2^32.
    pub fn resolve(&mut self, explicit: Option<u32>) -> (seed: u32)
        ensures
            seed == resolved_seed(explicit, old(self).next_seed()),
            final(self).next_seed() == counter_after(explicit, old(self).next_seed()),
    {
        match explicit {
            Some(s) => s,
            None => {
                let drawn = self.next;
                self.next = if self.next == 0xffff_ffffu32 {
                    0u32
                } else {
                    self.next + 1
                };
                drawn
            },
        }
    }
}

/// The implicit seed trajectory in closed form: the `k`-th draw returns
/// `(start + k) % 2^32`, the pre-increment value of a counter that has been
/// advanced `k` times.
pub proof fn lemma_nth_implicit_seed_closed_form(start: u32, k: nat)
    ensures
        nth_implicit_seed(start, k) == (start + k) % 0x1_0000_0000,
    decreases k,
{
    let m: int = 0x1_0000_0000;
    if k == 0 {
        lemma_small_mod(start as nat, m as nat);
    } else {
        lemma_nth_implicit_seed_closed_form(start, (k - 1) as nat);
        let a: int = start + k - 1;
        let r: int = a % m;
        lemma_mod_bound(a, m);
        lemma_fundamental_div_mod(a, m);
        if r == m - 1 {
            assert(a + 1 == (a / m + 1) * m) by (nonlinear_arith)
                requires
                    a == m * (a / m) + r,
                    r == m - 1,
            ;
            lemma_mod_multiples_basic(a / m + 1, m);
        } else {
            lemma_fundamental_div_mod_converse_mod(a + 1, m, a / m, r + 1);
        }
    }
}

/// Seed uniqueness under implicit mode: any two distinct implicit draws of
/// one counter return distinct seeds, barring the documented wraparound
/// (which can only occur once 2^32 draws lie between them).
pub proof fn lemma_implicit_seeds_distinct(start: u32, i: nat, j: nat)
    requires
        i < j,
        j - i < 0x1_0000_0000,
    ensures
        nth_implicit_seed(start, i) != nth_implicit_seed(start, j),
{
    let m: int = 0x1_0000_0000;
    lemma_nth_implicit_seed_closed_form(start, i);
    lemma_nth_implicit_seed_closed_form(start, j);
    lemma_mod_equivalence(start + j, start + i, m);
    lemma_small_mod((j - i) as nat, m as nat);
}

/// A chain of implicit draws against one counter: `nexts[0]` is the
/// counter's next value at the start, and the `i`-th draw returns
/// `drawn[i]` and leaves the counter at `nexts[i + 1]`, each step as
/// `resolve`'s contract describes an implicit resolution.
pub open spec fn implicit_draw_chain(nexts: Seq<u32>, drawn: Seq<u32>) -> bool {
    &&& nexts.len() == drawn.len() + 1
    &&& forall|i: int|
        0 <= i < drawn.len() ==> {
            &&& #[trigger] drawn[i] == resolved_seed(None, nexts[i])
            &&& nexts[i + 1] == counter_after(None, nexts[i])
        }
}

/// Along any chain of implicit draws, the `i`-th drawn seed is the `i`-th
/// value of the trajectory `nth_implicit_seed`.
pub proof fn lemma_implicit_draw_chain_seeds(nexts: Seq<u32>, drawn: Seq<u32>, i: int)
    requires
        implicit_draw_chain(nexts, drawn),
        0 <= i < drawn.len(),
    ensures
        drawn[i] == nth_implicit_seed(nexts[0], i as nat),
    decreases i,
{
    if i > 0 {
        lemma_implicit_draw_chain_seeds(nexts, drawn, i - 1);
    }
}

/// Seed uniqueness under implicit mode, stated over whole call sequences:
/// any number of implicit draws against one counter consume pairwise
/// distinct seeds, barring the documented wraparound (2^32 or more draws
/// apart).
pub proof fn lemma_implicit_draw_chain_distinct(nexts: Seq<u32>, drawn: Seq<u32>, i: int, j: int)
    requires
        implicit_draw_chain(nexts, drawn),
        0 <= i < j < drawn.len(),
        j - i < 0x1_0000_0000,
    ensures
        drawn[i] != drawn[j],
{
    lemma_implicit_draw_chain_seeds(nexts, drawn, i);
    lemma_implicit_draw_chain_seeds(nexts, drawn, j);
    lemma_implicit_seeds_distinct(nexts[0], i as nat, j as nat);
}

/// Monotonic issuance: while the counter does not wrap, implicit seeds come
/// out in strictly increasing order, each one the number of draws made
/// before it.
pub proof fn lemma_implicit_seeds_monotonic(start: u32, i: nat, j: nat)
    requires
        i <= j,
        start + j < 0x1_0000_0000,
    ensures
        nth_implicit_seed(start, i) == start + i,
        nth_implicit_seed(start, j) == start + j,
        nth_implicit_seed(start, i) <= nth_implicit_seed(start, j),
{
    let m: int = 0x1_0000_0000;
    lemma_nth_implicit_seed_closed_form(start, i);
    lemma_nth_implicit_seed_closed_form(start, j);
    lemma_small_mod((start + i) as nat, m as nat);
    lemma_small_mod((start + j) as nat, m as nat);
}

} // verus!
