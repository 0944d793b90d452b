//! A safe invocation and lifecycle layer around a byte-sequence mutation
//! engine used for fuzz-test input generation.
//!
//! The engine itself (bit flips, splicing, encoding-aware transformations,
//! ...) is an opaque external capability, reached through the
//! [`engine::MutationEngine`] trait.  This crate owns everything around it:
//! the one-time setup guard ([`gate::InitGate`]), the process-wide implicit
//! seed counter ([`seed::SeedCounter`]), and the two buffer-management
//! contracts ([`ops::generate`] and [`ops::mutate`]) that bridge caller-owned
//! memory to the engine's flat-buffer convention.

use vstd::prelude::*;

pub mod engine;
pub mod flip;
pub mod gate;
pub mod ops;
pub mod seed;

pub use ops::{generate, mutate, ProcessState};

verus! {

/// Output capacity used when `generate` is called without an explicit
/// `maxsize`: 1 MiB.
pub const DEFAULT_BUF_SIZE: usize = 1048576;

} // verus!
