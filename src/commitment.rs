//! The public digest that binds the secret: one Poseidon hash over a single
//! field element.
use vstd::prelude::*;

use group::ff::PrimeField;
use halo2_gadgets::poseidon::primitives as poseidon;
use halo2_gadgets::poseidon::primitives::{ConstantLength, P128Pow5T3};
use pasta_curves::pallas;

verus! {

/// The canonical 32-byte encoding of the Poseidon digest (width 3, rate 2,
/// one input element) of the field element whose value is `secret`.
pub uninterp spec fn poseidon_digest(secret: u64) -> Seq<u8>;

/// Relies on `halo2_poseidon::Hash::<_, P128Pow5T3, ConstantLength<1>, 3, 2>::hash`
/// over `pallas::Base::from(secret)`, encoded by `PrimeField::to_repr`: the
/// digest is a function of the secret alone.
#[verifier::external_body]
fn poseidon_hash(secret: u64) -> (r: [u8; 32])
    ensures
        r@ == poseidon_digest(secret),
{
    let message = [pallas::Base::from(secret)];
    poseidon::Hash::<pallas::Base, P128Pow5T3, ConstantLength<1>, 3, 2>::init().hash(message).to_repr()
}

/// A public commitment: 32 bytes that stand for a field element in its
/// little-endian encoding. `commit` yields a canonical encoding; bytes taken
/// from elsewhere are compared as they are and need not be canonical.
#[derive(Clone, Copy, Debug)]
pub struct Commitment {
    pub bytes: [u8; 32],
}

impl Commitment {
    /// Whether both commitments encode the same field element.
    pub fn same_as(&self, other: &Commitment) -> (r: bool)
        ensures
            r == (self.bytes@ == other.bytes@),
    {
        let mut i: usize = 0;
        while i < 32
            invariant
                i <= 32,
                self.bytes@.len() == 32,
                other.bytes@.len() == 32,
                forall|j: int| 0 <= j < i ==> self.bytes@[j] == other.bytes@[j],
            decreases 32 - i,
        {
            if self.bytes[i] != other.bytes[i] {
                return false;
            }
            i = i + 1;
        }
        assert(self.bytes@ =~= other.bytes@);
        true
    }
}

/// The commitment to `secret`: its Poseidon digest.
pub fn commit(secret: u64) -> (r: Commitment)
    ensures
        r.bytes@ == poseidon_digest(secret),
{
    Commitment { bytes: poseidon_hash(secret) }
}

/// Committing is deterministic: the same secret always yields the same
/// commitment.
pub proof fn lemma_commit_deterministic(a: u64, b: u64)
    requires
        a == b,
    ensures
        poseidon_digest(a) == poseidon_digest(b),
{
}

} // verus!
