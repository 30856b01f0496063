//! The statement that a proof attests: a secret strictly between two public
//! bounds, bound to a public commitment. The public instance vector has the
//! fixed layout `[commitment, lower, upper]`.
use vstd::prelude::*;

use crate::commitment::{commit, poseidon_digest, Commitment};

verus! {

/// Bit width of the comparison operands. Every `u64` fits, so the comparison
/// gadget is always used where its behaviour is defined.
pub const RANGE_BITS: u64 = 64;

/// Number of slots in the public instance vector.
pub const INSTANCE_LEN: usize = 3;

/// Instance row that holds the commitment.
pub const COMMITMENT_ROW: usize = 0;

/// Instance row that holds the lower bound.
pub const LOWER_ROW: usize = 1;

/// Instance row that holds the upper bound.
pub const UPPER_ROW: usize = 2;

/// The strict range relation: `lower < secret < upper`.
pub open spec fn strictly_between(lower: int, secret: int, upper: int) -> bool {
    lower < secret && secret < upper
}

/// One value of the public instance vector.
#[derive(Clone, Copy, Debug)]
pub enum PublicValue {
    Digest(Commitment),
    Bound(u64),
}

/// The public inputs of one proof.
#[derive(Clone, Copy, Debug)]
pub struct Instance {
    pub commitment: Commitment,
    pub lower: u64,
    pub upper: u64,
}

impl Instance {
    pub fn new(commitment: Commitment, lower: u64, upper: u64) -> (r: Instance)
        ensures
            r.commitment == commitment,
            r.lower == lower,
            r.upper == upper,
    {
        Instance { commitment, lower, upper }
    }

    /// The value at row `row` of the instance column, if the row exists.
    pub open spec fn slot_spec(self, row: int) -> Option<PublicValue> {
        if row == COMMITMENT_ROW {
            Some(PublicValue::Digest(self.commitment))
        } else if row == LOWER_ROW {
            Some(PublicValue::Bound(self.lower))
        } else if row == UPPER_ROW {
            Some(PublicValue::Bound(self.upper))
        } else {
            None
        }
    }

    /// The value at row `row` of the instance column, if the row exists.
    pub fn slot(&self, row: usize) -> (r: Option<PublicValue>)
        ensures
            r == self.slot_spec(row as int),
    {
        if row == COMMITMENT_ROW {
            Some(PublicValue::Digest(self.commitment))
        } else if row == LOWER_ROW {
            Some(PublicValue::Bound(self.lower))
        } else if row == UPPER_ROW {
            Some(PublicValue::Bound(self.upper))
        } else {
            None
        }
    }

    /// The instance column in order: `[commitment, lower, upper]`.
    pub fn column(&self) -> (r: Vec<PublicValue>)
        ensures
            r@.len() == INSTANCE_LEN,
            forall|i: int| 0 <= i < INSTANCE_LEN ==> Some(#[trigger] r@[i]) == self.slot_spec(i),
    {
        let r = vec![
            PublicValue::Digest(self.commitment),
            PublicValue::Bound(self.lower),
            PublicValue::Bound(self.upper),
        ];
        r
    }
}

/// The relation that the composed circuit enforces, given the digest of the
/// secret: the instance's commitment is that digest and the secret lies
/// strictly between the instance's bounds.
pub open spec fn relation(secret: u64, digest: Seq<u8>, instance: Instance) -> bool {
    instance.commitment.bytes@ == digest && strictly_between(
        instance.lower as int,
        secret as int,
        instance.upper as int,
    )
}

/// Whether `secret` satisfies the relation, given its digest `digest`.
pub fn satisfies_with_digest(secret: u64, digest: &Commitment, instance: &Instance) -> (r: bool)
    ensures
        r == relation(secret, digest.bytes@, *instance),
{
    instance.commitment.same_as(digest) && instance.lower < secret && secret < instance.upper
}

/// Whether a proof for `instance` can be made from `secret`: the secret's
/// commitment is the instance's and the secret lies strictly between the bounds.
pub fn satisfies(secret: u64, instance: &Instance) -> (r: bool)
    ensures
        r == relation(secret, poseidon_digest(secret), *instance),
{
    let digest = commit(secret);
    satisfies_with_digest(secret, &digest, instance)
}

/// The public instance for `secret` between `lower` and `upper`, with the
/// secret's own commitment.
pub fn instance_for(secret: u64, lower: u64, upper: u64) -> (r: Instance)
    ensures
        r.commitment.bytes@ == poseidon_digest(secret),
        r.lower == lower,
        r.upper == upper,
{
    Instance::new(commit(secret), lower, upper)
}

/// An honest instance is satisfied exactly when the secret lies strictly
/// between the bounds.
pub proof fn lemma_honest_instance(secret: u64, instance: Instance)
    requires
        instance.commitment.bytes@ == poseidon_digest(secret),
    ensures
        relation(secret, poseidon_digest(secret), instance) == strictly_between(
            instance.lower as int,
            secret as int,
            instance.upper as int,
        ),
{
}

/// A secret equal to the lower bound is rejected: the relation is strict.
pub proof fn lemma_lower_bound_excluded(secret: u64, digest: Seq<u8>, instance: Instance)
    requires
        secret == instance.lower,
    ensures
        !relation(secret, digest, instance),
{
}

/// A secret equal to the upper bound is rejected: the relation is strict.
pub proof fn lemma_upper_bound_excluded(secret: u64, digest: Seq<u8>, instance: Instance)
    requires
        secret == instance.upper,
    ensures
        !relation(secret, digest, instance),
{
}

/// A secret outside the closed range of the bounds is rejected.
pub proof fn lemma_out_of_range_rejected(secret: u64, digest: Seq<u8>, instance: Instance)
    requires
        secret < instance.lower || secret > instance.upper,
    ensures
        !relation(secret, digest, instance),
{
}

} // verus!
