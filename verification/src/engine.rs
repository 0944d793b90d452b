//! The mutation engine as an abstract capability.
//!
//! The engine is an opaque collaborator: given an input byte sequence, a
//! seed and a capacity, it produces a perturbed byte sequence.  Its
//! algorithms are not modeled here; each engine carries its own
//! specification-level model (`generated`, `mutated`, `mutated_fill`),
//! functions of the input and the seed alone — the engine is assumed
//! deterministic for a fixed `(input, seed)` pair.
//!
//! The engine's flat-buffer calling convention is made safe at this
//! boundary: `generate_into` writes into a caller-provided buffer without
//! changing its length and reports how much of it is output; the report is
//! bounded by the buffer's length.  `mutate_inplace` reuses one buffer as
//! both input and capacity.  Neither operation may be invoked before
//! `setup` has made the engine ready.

use vstd::prelude::*;

verus! {

/// An opaque byte-sequence mutation engine.
pub trait MutationEngine: Sized {
    /// Whether the engine's one-time setup routine has run, which must
    /// happen before any other operation is invoked on it.
    spec fn ready(&self) -> bool;

    /// The engine's model of the generate operation: the bytes it reports
    /// as output for an input sequence, an output capacity and a seed.
    /// Never longer than the capacity.
    spec fn generated(&self, input: Seq<u8>, cap: nat, seed: u32) -> Seq<u8>;

    /// The engine's model of the in-place operation: the full contents it
    /// leaves in a buffer, for the buffer's prior contents and a seed.
    /// Length-preserving.
    spec fn mutated(&self, data: Seq<u8>, seed: u32) -> Seq<u8>;

    /// How much of the buffer the in-place operation reports as valid
    /// output.  Never more than the buffer's length.
    spec fn mutated_fill(&self, data: Seq<u8>, seed: u32) -> nat;

    /// Run the engine's one-time setup routine.  Setup makes the engine
    /// ready and does not alter its mutation behavior.  A setup failure is
    /// fatal to the process; a verified engine's setup does not fail.
    fn setup(&mut self)
        ensures
            final(self).ready(),
            forall|input: Seq<u8>, cap: nat, seed: u32|
                #[trigger] final(self).generated(input, cap, seed) == old(self).generated(
                    input,
                    cap,
                    seed,
                ),
            forall|data: Seq<u8>, seed: u32|
                #[trigger] final(self).mutated(data, seed) == old(self).mutated(data, seed),
            forall|data: Seq<u8>, seed: u32|
                #[trigger] final(self).mutated_fill(data, seed) == old(self).mutated_fill(
                    data,
                    seed,
                ),
    ;

    /// Generate into `out`, treating `out`'s length as the output capacity.
    /// The buffer's length never changes; the reported length `n` is the
    /// length of the engine's output, never exceeds the capacity, and the
    /// first `n` bytes of the buffer are that output.  Bytes beyond `n` are
    /// unspecified.
    fn generate_into(&self, input: &Vec<u8>, out: &mut Vec<u8>, seed: u32) -> (n: usize)
        requires
            self.ready(),
        ensures
            final(out)@.len() == old(out)@.len(),
            n as nat == self.generated(input@, old(out)@.len() as nat, seed).len(),
            n <= old(out)@.len(),
            final(out)@.subrange(0, n as int) == self.generated(input@, old(out)@.len() as nat, seed),
    ;

    /// Mutate `buf` in place, treating its current length as both the input
    /// length and the output capacity.  The buffer's length never changes;
    /// the reported fill `n` never exceeds it.  Bytes beyond `n` are the
    /// engine's leavings and carry no meaning to a caller.
    fn mutate_inplace(&self, buf: &mut Vec<u8>, seed: u32) -> (n: usize)
        requires
            self.ready(),
        ensures
            final(buf)@.len() == old(buf)@.len(),
            final(buf)@ == self.mutated(old(buf)@, seed),
            n as nat == self.mutated_fill(old(buf)@, seed),
            n <= old(buf)@.len(),
    ;
}

/// Two engine values mutate identically: they agree on the generated
/// output, the in-place contents and the reported fill, for every input and
/// every seed.
pub open spec fn same_model<E: MutationEngine>(e1: &E, e2: &E) -> bool {
    &&& forall|input: Seq<u8>, cap: nat, seed: u32|
        #[trigger] e2.generated(input, cap, seed) == e1.generated(input, cap, seed)
    &&& forall|data: Seq<u8>, seed: u32| #[trigger] e2.mutated(data, seed) == e1.mutated(data, seed)
    &&& forall|data: Seq<u8>, seed: u32|
        #[trigger] e2.mutated_fill(data, seed) == e1.mutated_fill(data, seed)
}

} // verus!
