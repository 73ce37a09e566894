//! Field elements as the circuit sees them.
//!
//! All circuit arithmetic happens over the Pallas base field. A value of that
//! field is carried here as the four little-endian 64-bit limbs of a
//! representative; the hash wrappers reduce a representative modulo the field
//! order on the way in and always hand back the canonical representative of
//! their result.

use vstd::prelude::*;

verus! {

/// A Pallas base-field element, as the four little-endian 64-bit limbs of a
/// representative of its residue class.
#[derive(Clone, Copy, Debug, PartialEq, Eq, Structural)]
pub struct Felt {
    pub l0: u64,
    pub l1: u64,
    pub l2: u64,
    pub l3: u64,
}

impl View for Felt {
    type V = Seq<u64>;

    open spec fn view(&self) -> Seq<u64> {
        seq![self.l0, self.l1, self.l2, self.l3]
    }
}

impl Felt {
    /// The element with the given little-endian limbs.
    pub fn from_limbs(l0: u64, l1: u64, l2: u64, l3: u64) -> (r: Felt)
        ensures
            r@ == seq![l0, l1, l2, l3],
    {
        Felt { l0, l1, l2, l3 }
    }

    /// The element of a small integer.
    pub fn from_u64(v: u64) -> (r: Felt)
        ensures
            r@ == seq![v, 0u64, 0u64, 0u64],
    {
        Felt { l0: v, l1: 0, l2: 0, l3: 0 }
    }

    /// The limbs as an array, little-endian.
    pub fn limbs(&self) -> (r: [u64; 4])
        ensures
            r@ == self@,
    {
        let r = [self.l0, self.l1, self.l2, self.l3];
        proof {
            assert(r@ =~= self@);
        }
        r
    }
}

/// Two field elements with the same limbs are the same element.
pub proof fn lemma_felt_view_injective(a: Felt, b: Felt)
    requires
        a@ == b@,
    ensures
        a == b,
{
    assert(a.l0 == a@[0] && b.l0 == b@[0]);
    assert(a.l1 == a@[1] && b.l1 == b@[1]);
    assert(a.l2 == a@[2] && b.l2 == b@[2]);
    assert(a.l3 == a@[3] && b.l3 == b@[3]);
}

} // verus!
