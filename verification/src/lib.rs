//! An anonymity-pool membership circuit, off-circuit side.
//!
//! A depositor derives a commitment from a secret and a nullifier with a
//! Poseidon hash; the commitment is a leaf of a fixed-depth Merkle tree whose
//! inner nodes are combined with a Sinsemilla-based hash. This crate holds the
//! verified model of that computation: the commitment, the conditional-swap
//! Merkle fold that recomputes the root from a leaf and an authentication
//! path, and the layout of the public instance vector that a proof is checked
//! against. The two hash primitives are called in the `halo2` crates behind
//! trusted wrappers; everything that combines them is verified.

use vstd::prelude::*;

pub mod commitment;
pub mod felt;
pub mod hashes;
pub mod merkle;
pub mod witness;

verus! {

/// Width of the Poseidon permutation state.
pub const WIDTH: usize = 3;

/// Rate of the Poseidon sponge: the number of message elements absorbed.
pub const RATE: usize = 2;

} // verus!
