//! The one-time initialization guard.
//!
//! The engine's setup routine must run exactly once in the lifetime of the
//! process, no matter how many times the public operations are invoked.  The
//! gate records whether setup has been triggered; its `begin` transition
//! reports, exactly once, that the caller is the one that must run setup.
//!
//! As with the seed counter, the process-wide lifecycle of the original is
//! modeled as an explicit value: a caller owns one gate per engine and keeps
//! it behind its own synchronization when shared across threads.

use vstd::prelude::*;

verus! {

/// The one-time-setup gate.
pub struct InitGate {
    done: bool,
}

impl InitGate {
    /// Whether setup has been triggered through this gate.
    pub closed spec fn initialized(&self) -> bool {
        self.done
    }

    /// A fresh gate: setup has not run yet.
    pub fn new() -> (g: InitGate)
        ensures
            !g.initialized(),
    {
        InitGate { done: false }
    }

    /// Pass the guard.  Returns true exactly when the caller must run the
    /// setup routine now: on the first passage and never again.
    pub fn begin(&mut self) -> (run_setup: bool)
        ensures
            final(self).initialized(),
            run_setup == !old(self).initialized(),
    {
        let run_setup = !self.done;
        self.done = true;
        run_setup
    }

    /// Whether setup has been triggered, as an executable observation.
    pub fn is_initialized(&self) -> (r: bool)
        ensures
            r == self.initialized(),
    {
        self.done
    }
}

/// One passage of the guard, as `begin`'s contract describes it: `pre` is
/// the guard before, `post` the guard after, `ran_setup` what the passage
/// reported.
pub open spec fn gate_step(pre: InitGate, post: InitGate, ran_setup: bool) -> bool {
    &&& ran_setup == !pre.initialized()
    &&& post.initialized()
}

/// A chain of passages: `states[0]` is the starting gate, and the `i`-th
/// passage takes `states[i]` to `states[i + 1]`, reporting `runs[i]`.
pub open spec fn gate_chain(states: Seq<InitGate>, runs: Seq<bool>) -> bool {
    &&& states.len() == runs.len() + 1
    &&& forall|i: int| 0 <= i < runs.len() ==> gate_step(states[i], states[i + 1], #[trigger] runs[i])
}

/// How many passages of a chain reported that setup must run.
pub open spec fn count_setup_runs(runs: Seq<bool>) -> nat
    decreases runs.len(),
{
    if runs.len() == 0 {
        0
    } else {
        count_setup_runs(runs.drop_last()) + if runs.last() {
            1nat
        } else {
            0nat
        }
    }
}

/// Idempotent initialization: over any chain of passages, setup is triggered
/// at most once; exactly once when the guard starts fresh, and never when
/// setup had already been triggered before the chain began.
pub proof fn lemma_setup_runs_exactly_once(states: Seq<InitGate>, runs: Seq<bool>)
    requires
        gate_chain(states, runs),
    ensures
        count_setup_runs(runs) <= 1,
        runs.len() > 0 && !states[0].initialized() ==> count_setup_runs(runs) == 1,
        states[0].initialized() ==> count_setup_runs(runs) == 0,
    decreases runs.len(),
{
    if runs.len() > 0 {
        let prefix_states = states.drop_last();
        let prefix_runs = runs.drop_last();
        assert(gate_chain(prefix_states, prefix_runs));
        lemma_setup_runs_exactly_once(prefix_states, prefix_runs);
        if runs.len() >= 2 {
            // Every state after the first passage is initialized, so the
            // last passage cannot have triggered setup.
            assert(gate_step(states[runs.len() - 2], states[runs.len() - 1], runs[runs.len() - 2]));
            assert(!runs.last());
        }
    }
}

} // verus!
