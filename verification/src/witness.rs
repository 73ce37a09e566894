//! The per-proof witness and the public input binding.
//!
//! A witness is the private data of one membership proof: the secret, the
//! nullifier, the leaf position and the sibling path. Its shape is fixed by
//! the circuit (a path of exactly [`MERKLE_DEPTH`] siblings, a position
//! below [`POSITION_BOUND`]); a witness of another shape is rejected when it
//! is built, never truncated or padded. From a well-formed witness the
//! library computes the two values the proof binds publicly: the commitment
//! and the recomputed root, in that order.

use vstd::prelude::*;

use crate::commitment::{commit, commit_limbs};
use crate::felt::Felt;
use crate::merkle::{direction_bits_spec, limb_view, root_from_position, root_limbs};

verus! {

/// The fixed depth of the Merkle tree.
pub const MERKLE_DEPTH: usize = 4;

/// The number of leaf positions of a depth-[`MERKLE_DEPTH`] tree.
pub const POSITION_BOUND: u32 = 16;

/// Row of the commitment in the public instance column.
pub const COMMITMENT: usize = 0;

/// Row of the root in the public instance column.
pub const ROOT: usize = 1;

/// A witness whose shape does not fit the circuit.
#[derive(Clone, Copy, Debug, PartialEq, Eq, Structural)]
pub enum ShapeError {
    /// The sibling path does not hold exactly [`MERKLE_DEPTH`] elements.
    PathLengthMismatch,
    /// The leaf position does not address a leaf of the tree.
    PositionOutOfRange,
}

/// The private data of one membership proof.
pub struct Witness {
    pub secret: Felt,
    pub nullifier: Felt,
    pub position: u32,
    pub path: Vec<Felt>,
}

impl Witness {
    /// A witness fits the circuit shape: full-depth path, in-range position.
    pub open spec fn wf(&self) -> bool {
        &&& self.path@.len() == MERKLE_DEPTH
        &&& self.position < POSITION_BOUND
    }

    /// The limbs of the commitment this witness deposits.
    pub open spec fn spec_commitment(&self) -> Seq<u64> {
        commit_limbs(self.secret@, self.nullifier@)
    }

    /// The limbs of the root this witness recomputes, with the commitment as
    /// the leaf.
    pub open spec fn spec_root(&self) -> Seq<u64> {
        root_limbs(
            self.spec_commitment(),
            direction_bits_spec(self.position, self.path@.len() as int),
            limb_view(self.path@),
        )
    }

    /// Accept exactly the witnesses of the circuit's shape; report which
    /// shape constraint failed otherwise.
    pub fn new(secret: Felt, nullifier: Felt, position: u32, path: Vec<Felt>) -> (r: Result<
        Witness,
        ShapeError,
    >)
        ensures
            match r {
                Ok(w) => w.wf() && w.secret == secret && w.nullifier == nullifier && w.position
                    == position && w.path@ == path@,
                Err(ShapeError::PathLengthMismatch) => path@.len() != MERKLE_DEPTH,
                Err(ShapeError::PositionOutOfRange) => path@.len() == MERKLE_DEPTH && position
                    >= POSITION_BOUND,
            },
    {
        if path.len() != MERKLE_DEPTH {
            Err(ShapeError::PathLengthMismatch)
        } else if position >= POSITION_BOUND {
            Err(ShapeError::PositionOutOfRange)
        } else {
            Ok(Witness { secret, nullifier, position, path })
        }
    }

    /// The commitment this witness deposits.
    pub fn commitment(&self) -> (r: Felt)
        ensures
            r@ == self.spec_commitment(),
    {
        commit(&self.secret, &self.nullifier)
    }

    /// The root this witness recomputes from its path, with the commitment
    /// as the leaf.
    pub fn root(&self) -> (r: Felt)
        requires
            self.wf(),
        ensures
            r@ == self.spec_root(),
    {
        let c = self.commitment();
        root_from_position(&c, self.position, &self.path)
    }

    /// The public instance vector this witness binds: the commitment at row
    /// [`COMMITMENT`], the root at row [`ROOT`].
    pub fn public_inputs(&self) -> (r: Vec<Felt>)
        requires
            self.wf(),
        ensures
            r@.len() == 2,
            r@[COMMITMENT as int]@ == self.spec_commitment(),
            r@[ROOT as int]@ == self.spec_root(),
    {
        let c = self.commitment();
        let root = self.root();
        instance_vector(&c, None, &root)
    }
}

/// Binding the public inputs is a pure function of the witness: two instance
/// vectors that both satisfy the binding contract hold the same values.
pub proof fn lemma_public_inputs_deterministic(w: Witness, v1: Seq<Felt>, v2: Seq<Felt>)
    requires
        v1.len() == 2,
        v2.len() == 2,
        v1[COMMITMENT as int]@ == w.spec_commitment(),
        v1[ROOT as int]@ == w.spec_root(),
        v2[COMMITMENT as int]@ == w.spec_commitment(),
        v2[ROOT as int]@ == w.spec_root(),
    ensures
        v1 == v2,
{
    crate::felt::lemma_felt_view_injective(v1[COMMITMENT as int], v2[COMMITMENT as int]);
    crate::felt::lemma_felt_view_injective(v1[ROOT as int], v2[ROOT as int]);
    assert(v1 =~= v2);
}

/// The canonical public instance vector. Without a nullifier hash the layout
/// is `[commitment, root]`; with one it is `[commitment, nullifier hash,
/// root]`.
pub fn instance_vector(commitment: &Felt, nullifier_hash: Option<&Felt>, root: &Felt) -> (r: Vec<
    Felt,
>)
    ensures
        match nullifier_hash {
            None => r@ == seq![*commitment, *root],
            Some(h) => r@ == seq![*commitment, *h, *root],
        },
{
    let mut r: Vec<Felt> = Vec::new();
    r.push(*commitment);
    match nullifier_hash {
        Some(h) => r.push(*h),
        None => (),
    }
    r.push(*root);
    proof {
        match nullifier_hash {
            Some(h) => {
                assert(r@ =~= seq![*commitment, *h, *root]);
            },
            None => {
                assert(r@ =~= seq![*commitment, *root]);
            },
        }
    }
    r
}

} // verus!
