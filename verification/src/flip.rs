//! A small deterministic engine: every byte is XORed with the low byte of
//! the seed, so the seed literally selects which bits to flip.
//!
//! This engine is verified against its own model, which makes it the
//! reference implementation of [`MutationEngine`]: it exercises the whole
//! invocation layer in tests without the native engine, and it records how
//! often its setup routine has been run, so a test can observe that setup
//! is triggered exactly once.

use vstd::prelude::*;

use crate::engine::MutationEngine;

verus! {

/// The byte a seed flips with: the seed's low 8 bits.
pub open spec fn seed_mask(seed: u32) -> u8 {
    (seed & 0xff) as u8
}

/// The engine's generate model: the input with every byte XORed against the
/// seed's low byte, truncated to the capacity.
pub open spec fn flip_output(input: Seq<u8>, cap: nat, seed: u32) -> Seq<u8> {
    let n = if input.len() <= cap {
        input.len()
    } else {
        cap
    };
    Seq::new(n, |i: int| input[i] ^ seed_mask(seed))
}

/// The engine's in-place model: every byte XORed against the seed's low
/// byte, the length kept.
pub open spec fn flip_all(data: Seq<u8>, seed: u32) -> Seq<u8> {
    Seq::new(data.len(), |i: int| data[i] ^ seed_mask(seed))
}

/// The bit-flipping engine.  Carries no state besides its setup record.
pub struct BitFlipEngine {
    set_up: bool,
    setups: u64,
}

impl BitFlipEngine {
    /// How often the setup routine has been run on this engine, saturating
    /// at `u64::MAX`.
    pub closed spec fn recorded_setups(&self) -> u64 {
        self.setups
    }

    /// A fresh engine: not ready, setup never run.
    pub fn new() -> (e: BitFlipEngine)
        ensures
            !e.ready(),
            e.recorded_setups() == 0,
    {
        BitFlipEngine { set_up: false, setups: 0u64 }
    }

    /// The setup-call instrumentation point: how often setup has been run.
    pub fn setup_calls(&self) -> (r: u64)
        ensures
            r == self.recorded_setups(),
    {
        self.setups
    }
}

impl MutationEngine for BitFlipEngine {
    closed spec fn ready(&self) -> bool {
        self.set_up
    }

    open spec fn generated(&self, input: Seq<u8>, cap: nat, seed: u32) -> Seq<u8> {
        flip_output(input, cap, seed)
    }

    open spec fn mutated(&self, data: Seq<u8>, seed: u32) -> Seq<u8> {
        flip_all(data, seed)
    }

    open spec fn mutated_fill(&self, data: Seq<u8>, seed: u32) -> nat {
        data.len()
    }

    fn setup(&mut self) {
        self.set_up = true;
        self.setups = if self.setups < 0xffff_ffff_ffff_ffffu64 {
            self.setups + 1
        } else {
            self.setups
        };
    }

    fn generate_into(&self, input: &Vec<u8>, out: &mut Vec<u8>, seed: u32) -> (n: usize) {
        let cap = out.len();
        let n = if input.len() <= cap {
            input.len()
        } else {
            cap
        };
        let mask = (seed & 0xff) as u8;
        let mut result: Vec<u8> = Vec::new();
        let mut i: usize = 0;
        while i < n
            invariant
                i <= n,
                n <= input@.len(),
                n <= cap,
                mask == seed_mask(seed),
                result@.len() == i,
                forall|j: int| 0 <= j < i ==> result@[j] == input@[j] ^ seed_mask(seed),
            decreases n - i,
        {
            result.push(input[i] ^ mask);
            i += 1;
        }
        while result.len() < cap
            invariant
                n <= result@.len() <= cap,
                forall|j: int| 0 <= j < n ==> result@[j] == input@[j] ^ seed_mask(seed),
            decreases cap - result@.len(),
        {
            result.push(0u8);
        }
        assert(result@.subrange(0, n as int) =~= flip_output(input@, cap as nat, seed));
        *out = result;
        n
    }

    fn mutate_inplace(&self, buf: &mut Vec<u8>, seed: u32) -> (n: usize) {
        let ghost orig: Seq<u8> = buf@;
        let len = buf.len();
        let mask = (seed & 0xff) as u8;
        let mut result: Vec<u8> = Vec::new();
        let mut i: usize = 0;
        while i < len
            invariant
                i <= len,
                len == buf@.len(),
                buf@ == orig,
                mask == seed_mask(seed),
                result@.len() == i,
                forall|j: int| 0 <= j < i ==> result@[j] == buf@[j] ^ seed_mask(seed),
            decreases len - i,
        {
            result.push(buf[i] ^ mask);
            i += 1;
        }
        assert(result@ =~= flip_all(orig, seed));
        *buf = result;
        len
    }
}

} // verus!
