//! The commitment hash gadget's off-circuit model.
//!
//! A deposit is identified by `commit(secret, nullifier)`: the Poseidon
//! compression of exactly those two field elements. The circuit proves that
//! the committed leaf was computed this way; this module is the same
//! function on concrete values, stated over the named Poseidon digest.

use vstd::prelude::*;

use crate::felt::Felt;
use crate::hashes::{poseidon2_limbs, poseidon_hash};

verus! {

/// The limbs of the commitment bound to a secret and a nullifier.
pub open spec fn commit_limbs(secret: Seq<u64>, nullifier: Seq<u64>) -> Seq<u64> {
    poseidon2_limbs(secret, nullifier)
}

/// The commitment of a secret and a nullifier: their two-element Poseidon
/// digest, consumed as the Merkle leaf and exposed as a public input.
pub fn commit(secret: &Felt, nullifier: &Felt) -> (r: Felt)
    ensures
        r@ == commit_limbs(secret@, nullifier@),
{
    poseidon_hash(secret, nullifier)
}

/// Committing is a pure function: two commitments of the same secret and
/// nullifier are the same value.
pub proof fn lemma_commit_deterministic(r1: Felt, r2: Felt, secret: Felt, nullifier: Felt)
    requires
        r1@ == commit_limbs(secret@, nullifier@),
        r2@ == commit_limbs(secret@, nullifier@),
    ensures
        r1 == r2,
{
    crate::felt::lemma_felt_view_injective(r1, r2);
}

} // verus!
