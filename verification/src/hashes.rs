//! Trusted wrappers around the two hash primitives.
//!
//! The circuit uses two distinct hash instantiations: a Poseidon compression
//! over two field elements for the commitment, and the Sinsemilla-based
//! Merkle combinator for the tree levels. Both are cryptographic functions
//! whose value on given inputs no short contract can state, so each result is
//! given a name (`poseidon2_limbs`, `merkle_crh_limbs`) and everything the
//! library proves about commitments and roots is stated over those names.
//! The trusted bodies speak plain limb arrays; [`Felt`] values are packed and
//! unpacked around them in verified code.

use vstd::prelude::*;

use crate::felt::Felt;
use halo2_gadgets::poseidon::primitives::{ConstantLength, P128Pow5T3};
use halo2_gadgets::utilities::i2lebsp;
use halo2_proofs::pasta::group::ff::Field;
use halo2_proofs::pasta::group::ff::PrimeField;
use halo2_proofs::pasta::group::ff::PrimeFieldBits;
use halo2_proofs::pasta::group::Group;
use halo2_proofs::pasta::{pallas, Fp};

verus! {

/// The limbs of the Poseidon digest of the two elements with the given limbs.
pub uninterp spec fn poseidon2_limbs(a: Seq<u64>, b: Seq<u64>) -> Seq<u64>;

/// The limbs of `MerkleCRH(layer, left, right)`: the Sinsemilla hash, under
/// this protocol's fixed `Q` point, of the 10-bit layer index followed by the
/// 255 little-endian bits of each child.
pub uninterp spec fn merkle_crh_limbs(layer: int, left: Seq<u64>, right: Seq<u64>) -> Seq<u64>;

/// Relies on `halo2_poseidon::Hash` (re-exported as
/// `halo2_gadgets::poseidon::primitives::Hash`) with the `P128Pow5T3` spec,
/// width 3, rate 2, over a two-element message: the digest is a function of
/// the two field elements alone, and `Fp::from_raw` / `to_repr` convert
/// between limbs and field elements.
#[verifier::external_body]
fn poseidon_hash_raw(a: [u64; 4], b: [u64; 4]) -> (r: [u64; 4])
    ensures
        r@ == poseidon2_limbs(a@, b@),
{
    let h = halo2_gadgets::poseidon::primitives::Hash::<
        Fp,
        P128Pow5T3,
        ConstantLength<2>,
        3,
        2,
    >::init().hash([Fp::from_raw(a), Fp::from_raw(b)]);
    let mut o = [0u64; 4];
    for (j, c) in h.to_repr().chunks(8).enumerate() {
        o[j] = u64::from_le_bytes(c.try_into().unwrap());
    }
    o
}

/// Relies on `sinsemilla::HashDomain::hash` over the message
/// `layer (10 bits) || left (255 bits) || right (255 bits)`: the digest is a
/// function of the three arguments alone; a hash that lands outside the
/// domain of the coordinate extractor is mapped to zero, as the Merkle chip's
/// own reference computation does. The `Q` point of the domain is the Pallas
/// generator; a deployment should derive it from an independent
/// parameter-generation procedure instead of reusing a fixed base.
#[verifier::external_body]
fn sinsemilla_merkle_hash_raw(layer: u32, left: [u64; 4], right: [u64; 4]) -> (r: [u64; 4])
    requires
        layer < 1024,
    ensures
        r@ == merkle_crh_limbs(layer as int, left@, right@),
{
    let d = sinsemilla::HashDomain::from_Q(pallas::Point::generator());
    let (a, b) = (Fp::from_raw(left).to_le_bits(), Fp::from_raw(right).to_le_bits());
    let m = i2lebsp::<10>(layer as u64)
        .into_iter()
        .chain(a.iter().by_vals().take(255))
        .chain(b.iter().by_vals().take(255));
    let h = d.hash(m).unwrap_or(Fp::ZERO);
    let mut o = [0u64; 4];
    for (j, c) in h.to_repr().chunks(8).enumerate() {
        o[j] = u64::from_le_bytes(c.try_into().unwrap());
    }
    o
}

/// The Poseidon digest of two field elements.
pub(crate) fn poseidon_hash(a: &Felt, b: &Felt) -> (r: Felt)
    ensures
        r@ == poseidon2_limbs(a@, b@),
{
    let o = poseidon_hash_raw(a.limbs(), b.limbs());
    let r = Felt::from_limbs(o[0], o[1], o[2], o[3]);
    proof {
        assert(r@ =~= o@);
    }
    r
}

/// `MerkleCRH` of an ordered child pair at a layer.
pub(crate) fn sinsemilla_merkle_hash(layer: u32, left: &Felt, right: &Felt) -> (r: Felt)
    requires
        layer < 1024,
    ensures
        r@ == merkle_crh_limbs(layer as int, left@, right@),
{
    let o = sinsemilla_merkle_hash_raw(layer, left.limbs(), right.limbs());
    let r = Felt::from_limbs(o[0], o[1], o[2], o[3]);
    proof {
        assert(r@ =~= o@);
    }
    r
}

} // verus!
