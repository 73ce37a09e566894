//! The Merkle combination gadget's off-circuit model.
//!
//! A leaf is folded up a fixed-depth tree: at level `i` the running node is
//! paired with the sibling at that level, the pair is ordered by direction
//! bit `i` of the leaf position (bit 0 steers the lowest level; a clear bit
//! puts the running node on the left), and the ordered pair is combined with
//! `MerkleCRH` at layer `i`. After all levels the running node is the root.
//!
//! Direction bits are `bool` throughout, so an out-of-range bit is not
//! representable here; inside the circuit the Merkle chip additionally
//! constrains each witnessed bit to be boolean.

use vstd::prelude::*;

use crate::felt::Felt;
use crate::hashes::{merkle_crh_limbs, sinsemilla_merkle_hash};

verus! {

/// Direction bit `i` of a leaf position: bit `i` of the little-endian binary
/// representation of the position.
pub open spec fn direction_bit(position: u32, i: int) -> bool
    recommends
        0 <= i < 32,
{
    ((position >> (i as u32)) & 1u32) == 1u32
}

/// The first `depth` direction bits of a leaf position, lowest level first.
pub open spec fn direction_bits_spec(position: u32, depth: int) -> Seq<bool> {
    Seq::new(depth as nat, |i: int| direction_bit(position, i))
}

/// One level of the fold: the child pair in the order fixed by the direction
/// bit, combined with `MerkleCRH` at the given layer.
pub open spec fn merkle_step_limbs(
    node: Seq<u64>,
    sibling: Seq<u64>,
    bit: bool,
    layer: int,
) -> Seq<u64> {
    if bit {
        merkle_crh_limbs(layer, sibling, node)
    } else {
        merkle_crh_limbs(layer, node, sibling)
    }
}

/// The limbs of each element of a path.
pub open spec fn limb_view(path: Seq<Felt>) -> Seq<Seq<u64>> {
    path.map_values(|f: Felt| f@)
}

/// The running node after folding levels `i`, `i + 1`, ... of the path into
/// `node`.
pub open spec fn root_limbs_from(
    node: Seq<u64>,
    bits: Seq<bool>,
    siblings: Seq<Seq<u64>>,
    i: int,
) -> Seq<u64>
    decreases siblings.len() - i,
{
    if i < 0 || siblings.len() <= i {
        node
    } else {
        root_limbs_from(merkle_step_limbs(node, siblings[i], bits[i], i), bits, siblings, i + 1)
    }
}

/// The root recomputed from a leaf, the direction bits and the sibling path.
pub open spec fn root_limbs(leaf: Seq<u64>, bits: Seq<bool>, siblings: Seq<Seq<u64>>) -> Seq<u64> {
    root_limbs_from(leaf, bits, siblings, 0)
}

/// The direction bits of a position, lowest tree level first.
pub fn direction_bits(position: u32, depth: usize) -> (r: Vec<bool>)
    requires
        depth <= 32,
    ensures
        r@ =~= direction_bits_spec(position, depth as int),
{
    let mut r: Vec<bool> = Vec::new();
    let mut i: u32 = 0;
    while (i as usize) < depth
        invariant
            depth <= 32,
            i as int <= depth as int,
            r@.len() == i as int,
            forall|j: int| 0 <= j < i as int ==> r@[j] == direction_bit(position, j),
        decreases depth as int - i as int,
    {
        r.push(((position >> i) & 1) == 1);
        i = i + 1;
    }
    r
}

/// One Merkle level: order the children by the direction bit, then combine.
/// A clear bit keeps the running node on the left.
pub fn merkle_step(node: &Felt, sibling: &Felt, bit: bool, layer: u32) -> (r: Felt)
    requires
        layer < 1024,
    ensures
        r@ == merkle_step_limbs(node@, sibling@, bit, layer as int),
{
    if bit {
        sinsemilla_merkle_hash(layer, sibling, node)
    } else {
        sinsemilla_merkle_hash(layer, node, sibling)
    }
}

/// Recompute the root from a leaf, one direction bit per level and one
/// sibling per level, lowest level first. The layer index fed to the
/// combinator is a 10-bit value, which bounds the supported depth.
pub fn compute_root(leaf: &Felt, bits: &Vec<bool>, path: &Vec<Felt>) -> (r: Felt)
    requires
        bits@.len() == path@.len(),
        path@.len() <= 1024,
    ensures
        r@ == root_limbs(leaf@, bits@, limb_view(path@)),
{
    let mut node: Felt = *leaf;
    let mut i: usize = 0;
    while i < path.len()
        invariant
            bits@.len() == path@.len(),
            path@.len() <= 1024,
            i <= path@.len(),
            root_limbs(leaf@, bits@, limb_view(path@)) == root_limbs_from(
                node@,
                bits@,
                limb_view(path@),
                i as int,
            ),
        decreases path@.len() - i,
    {
        assert(limb_view(path@)[i as int] == path@[i as int]@);
        let sibling: Felt = path[i];
        let bit: bool = bits[i];
        node = merkle_step(&node, &sibling, bit, i as u32);
        i = i + 1;
    }
    node
}

/// Recompute the root from a leaf position instead of explicit bits.
pub fn root_from_position(leaf: &Felt, position: u32, path: &Vec<Felt>) -> (r: Felt)
    requires
        path@.len() <= 32,
    ensures
        r@ == root_limbs(
            leaf@,
            direction_bits_spec(position, path@.len() as int),
            limb_view(path@),
        ),
{
    let bits = direction_bits(position, path.len());
    compute_root(leaf, &bits, path)
}

/// The defined swap rule and nothing more: combining with a set direction
/// bit is combining the swapped pair with a clear one.
pub proof fn lemma_step_swap(node: Seq<u64>, sibling: Seq<u64>, layer: int)
    ensures
        merkle_step_limbs(node, sibling, true, layer) == merkle_step_limbs(
            sibling,
            node,
            false,
            layer,
        ),
{
}

/// Root recomputation is a pure function: two recomputations from the same
/// leaf, bits and path give the same root.
pub proof fn lemma_root_deterministic(r1: Felt, r2: Felt, leaf: Felt, bits: Seq<bool>, path: Seq<Felt>)
    requires
        r1@ == root_limbs(leaf@, bits, limb_view(path)),
        r2@ == root_limbs(leaf@, bits, limb_view(path)),
    ensures
        r1 == r2,
{
    crate::felt::lemma_felt_view_injective(r1, r2);
}

} // verus!
