//! The two public operations and the process-wide state they share.
//!
//! `generate` allocates a fresh output buffer sized to the requested
//! capacity, hands it to the engine, and returns it truncated to the
//! engine-reported output length.  `mutate` reuses a caller-owned buffer as
//! both input and capacity, and — deliberately, unlike `generate` — performs
//! no truncation: the caller interprets the returned fill length as the
//! valid prefix.
//!
//! Both operations first pass the one-time gate, running the engine's setup
//! routine exactly once over the life of a `ProcessState`, and then resolve
//! their seed: an explicit seed passes through untouched, an implicit one is
//! drawn from the shared counter.

use vstd::prelude::*;

use crate::engine::{same_model, MutationEngine};
use crate::gate::InitGate;
use crate::seed::{counter_after, resolved_seed, SeedCounter};
use crate::DEFAULT_BUF_SIZE;

verus! {

/// The output capacity a `generate` request resolves to: the requested
/// `maxsize`, or 1 MiB when none was given.
pub open spec fn effective_capacity(maxsize: Option<usize>) -> usize {
    match maxsize {
        Some(m) => m,
        None => DEFAULT_BUF_SIZE,
    }
}

/// The shared state of the invocation layer: the one-time setup gate and
/// the implicit seed counter.  The original holds one such state per
/// process, created lazily and never torn down; here it is an explicit
/// value, owned by the caller together with its engine and shared across
/// threads behind the caller's own synchronization.
pub struct ProcessState {
    gate: InitGate,
    counter: SeedCounter,
}

impl ProcessState {
    /// Whether the engine setup routine has been triggered through this
    /// state.
    pub closed spec fn initialized(&self) -> bool {
        self.gate.initialized()
    }

    /// The seed the next implicit draw will return.
    pub closed spec fn next_seed(&self) -> u32 {
        self.counter.next_seed()
    }

    /// Fresh state: setup not yet triggered, implicit seeds starting at 0.
    pub fn new() -> (s: ProcessState)
        ensures
            !s.initialized(),
            s.next_seed() == 0,
    {
        ProcessState { gate: InitGate::new(), counter: SeedCounter::new() }
    }

    /// Pass the one-time gate: reports true exactly when the caller must
    /// run the engine's setup routine now.  The seed counter is untouched.
    pub fn begin_setup(&mut self) -> (run_setup: bool)
        ensures
            final(self).initialized(),
            run_setup == !old(self).initialized(),
            final(self).next_seed() == old(self).next_seed(),
    {
        self.gate.begin()
    }

    /// Resolve a seed request against the shared counter (see
    /// [`SeedCounter::resolve`]).  The guard is untouched.
    pub fn resolve_seed(&mut self, explicit: Option<u32>) -> (seed: u32)
        ensures
            seed == resolved_seed(explicit, old(self).next_seed()),
            final(self).next_seed() == counter_after(explicit, old(self).next_seed()),
            final(self).initialized() == old(self).initialized(),
    {
        self.counter.resolve(explicit)
    }

    /// Whether setup has been triggered, as an executable observation.
    pub fn is_initialized(&self) -> (r: bool)
        ensures
            r == self.initialized(),
    {
        self.gate.is_initialized()
    }
}

/// Generate a new buffer from an existing one.
///
/// A zero-filled output buffer of exactly the effective capacity (`maxsize`,
/// or 1 MiB when omitted) is handed to the engine together with the resolved
/// seed; the result is that buffer truncated to the engine-reported output
/// length, a fresh caller-owned sequence never longer than the capacity.
/// `input` is only read.
///
/// The precondition ties the injected pair together: once the state says
/// setup has been triggered, the engine it was triggered on must be the
/// engine passed in.  A fresh state with its engine always satisfies it.
pub fn generate<E: MutationEngine>(
    engine: &mut E,
    state: &mut ProcessState,
    input: &Vec<u8>,
    seed: Option<u32>,
    maxsize: Option<usize>,
) -> (output: Vec<u8>)
    requires
        old(state).initialized() ==> old(engine).ready(),
    ensures
        final(engine).ready(),
        final(state).initialized(),
        same_model(old(engine), final(engine)),
        old(state).initialized() ==> *final(engine) == *old(engine),
        final(state).next_seed() == counter_after(seed, old(state).next_seed()),
        output@ == old(engine).generated(
            input@,
            effective_capacity(maxsize) as nat,
            resolved_seed(seed, old(state).next_seed()),
        ),
        output@.len() <= effective_capacity(maxsize),
{
    if state.begin_setup() {
        engine.setup();
    }
    let max_size_val = match maxsize {
        Some(m) => m,
        None => DEFAULT_BUF_SIZE,
    };
    let mut out_vec = vec![0u8; max_size_val];
    let seed_val = state.resolve_seed(seed);
    let outlen = engine.generate_into(input, &mut out_vec, seed_val);
    // The engine-reported length respects the capacity it was given.
    assert(outlen <= max_size_val);
    out_vec.truncate(outlen);
    out_vec
}

/// Mutate a buffer in place.
///
/// The buffer's current length serves as both the engine's input length and
/// its output capacity; the buffer is never reallocated and its length never
/// changes.  Returns the engine-reported fill length, never more than the
/// buffer's length: bytes before it are the valid mutated output, bytes
/// beyond it are whatever the engine left there — deliberately, no
/// truncation is performed.
///
/// The precondition is the same injected-pair tie as for [`generate`].
pub fn mutate<E: MutationEngine>(
    engine: &mut E,
    state: &mut ProcessState,
    input: &mut Vec<u8>,
    seed: Option<u32>,
) -> (filled: usize)
    requires
        old(state).initialized() ==> old(engine).ready(),
    ensures
        final(engine).ready(),
        final(state).initialized(),
        same_model(old(engine), final(engine)),
        old(state).initialized() ==> *final(engine) == *old(engine),
        final(state).next_seed() == counter_after(seed, old(state).next_seed()),
        final(input)@.len() == old(input)@.len(),
        final(input)@ == old(engine).mutated(
            old(input)@,
            resolved_seed(seed, old(state).next_seed()),
        ),
        filled as nat == old(engine).mutated_fill(
            old(input)@,
            resolved_seed(seed, old(state).next_seed()),
        ),
        filled <= old(input)@.len(),
{
    if state.begin_setup() {
        engine.setup();
    }
    let seed_val = state.resolve_seed(seed);
    engine.mutate_inplace(input, seed_val)
}

/// Determinism of the generate path: one engine, a fixed input, capacity
/// and seed pin the generated output completely, so any two `generate`
/// results obtained under them agree byte for byte — in particular across
/// repeated calls, whose contracts each equate the output to the same
/// engine model value.
pub proof fn lemma_generate_deterministic<E: MutationEngine>(
    engine: &E,
    input: Seq<u8>,
    cap: nat,
    seed: u32,
    out1: Seq<u8>,
    out2: Seq<u8>,
)
    requires
        out1 == engine.generated(input, cap, seed),
        out2 == engine.generated(input, cap, seed),
    ensures
        out1 == out2,
        out1.len() == out2.len(),
{
}

} // verus!
