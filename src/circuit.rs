//! The composed circuit: a secret, bound to instance row 0 through the
//! commitment gadget, and compared with the bounds of instance rows 1 and 2.
//!
//! The circuit is described here as the ordered list of assignment steps that
//! it performs; the proving engine carries each step out on its constraint
//! table.
use vstd::prelude::*;

use crate::commitment::{commit, poseidon_digest, Commitment};
use crate::statement::{relation, Instance, PublicValue, COMMITMENT_ROW, LOWER_ROW, UPPER_ROW};

verus! {

/// How the circuit is being synthesized.
#[derive(Clone, Copy, Debug)]
pub enum Mode {
    /// Deriving keys: the layout is built, no witness value exists.
    KeyGen,
    /// Creating a proof: every witness value must be known.
    Prove,
}

/// A witness that proving needs is absent.
#[derive(Clone, Copy, Debug)]
pub enum WitnessError {
    MissingSecret,
}

/// An operand of a comparison.
#[derive(Clone, Copy, Debug)]
pub enum Operand {
    Lower,
    Secret,
    Upper,
}

/// One assignment step of the composed circuit.
#[derive(Clone, Copy, Debug)]
pub enum Step {
    /// Assign the secret into its advice cell; `None` while no witness exists.
    LoadSecret(Option<u64>),
    /// Hash the secret cell with the commitment gadget.
    Commit,
    /// Bind the digest cell to this instance row by a copy constraint.
    ExposeCommitment(usize),
    /// Copy this instance row into the comparison gadget's cell for a bound.
    LoadBound(Operand, usize),
    /// Constrain the first operand to be strictly less than the second.
    AssertLess(Operand, Operand),
}

/// The steps of the circuit, with `secret` as the value of the secret cell.
pub open spec fn assignment_plan(secret: Option<u64>) -> Seq<Step> {
    seq![
        Step::LoadSecret(secret),
        Step::LoadBound(Operand::Lower, LOWER_ROW),
        Step::LoadBound(Operand::Upper, UPPER_ROW),
        Step::Commit,
        Step::ExposeCommitment(COMMITMENT_ROW),
        Step::AssertLess(Operand::Lower, Operand::Secret),
        Step::AssertLess(Operand::Secret, Operand::Upper),
    ]
}

/// The value of an operand's cell, for a secret and an instance.
pub open spec fn operand_value(op: Operand, secret: u64, instance: Instance) -> int {
    match op {
        Operand::Lower => instance.lower as int,
        Operand::Secret => secret as int,
        Operand::Upper => instance.upper as int,
    }
}

/// Whether the constraint that a step adds holds, where `digest` is the value
/// of the commitment gadget's output cell.
pub open spec fn step_holds(step: Step, secret: u64, digest: Seq<u8>, instance: Instance) -> bool {
    match step {
        Step::LoadSecret(v) => v == Some(secret),
        Step::Commit => true,
        Step::ExposeCommitment(row) => match instance.slot_spec(row as int) {
            Some(PublicValue::Digest(c)) => c.bytes@ == digest,
            _ => false,
        },
        Step::LoadBound(op, row) => match instance.slot_spec(row as int) {
            Some(PublicValue::Bound(b)) => operand_value(op, secret, instance) == b as int,
            _ => false,
        },
        Step::AssertLess(a, b) => operand_value(a, secret, instance) < operand_value(
            b,
            secret,
            instance,
        ),
    }
}

/// The composition is sound and complete: every constraint of the proving
/// steps holds exactly when the digest is bound to instance row 0 and the
/// secret lies strictly between the bounds of rows 1 and 2.
pub proof fn lemma_plan_enforces_relation(secret: u64, digest: Seq<u8>, instance: Instance)
    ensures
        (forall|i: int|
            0 <= i < assignment_plan(Some(secret)).len() ==> step_holds(
                #[trigger] assignment_plan(Some(secret))[i],
                secret,
                digest,
                instance,
            )) <==> relation(secret, digest, instance),
{
    let plan = assignment_plan(Some(secret));
    if relation(secret, digest, instance) {
        assert forall|i: int| 0 <= i < plan.len() implies step_holds(
            #[trigger] plan[i],
            secret,
            digest,
            instance,
        ) by {}
    }
    if forall|i: int| 0 <= i < plan.len() ==> step_holds(#[trigger] plan[i], secret, digest, instance) {
        assert(step_holds(plan[4], secret, digest, instance));
        assert(step_holds(plan[5], secret, digest, instance));
        assert(step_holds(plan[6], secret, digest, instance));
    }
}

/// Whether two steps do the same thing to the same cells, whatever value
/// they assign.
pub open spec fn same_shape(a: Step, b: Step) -> bool {
    match (a, b) {
        (Step::LoadSecret(_), Step::LoadSecret(_)) => true,
        _ => a == b,
    }
}

/// Keys derived once serve every witness: the steps of key generation and
/// those of proving any secret differ only in the value of the secret cell.
pub proof fn lemma_keys_reusable(secret: u64)
    ensures
        assignment_plan(Some(secret)).len() == assignment_plan(None).len(),
        forall|i: int|
            0 <= i < assignment_plan(None).len() ==> same_shape(
                #[trigger] assignment_plan(Some(secret))[i],
                assignment_plan(None)[i],
            ),
{
    assert forall|i: int| 0 <= i < assignment_plan(None).len() implies same_shape(
        #[trigger] assignment_plan(Some(secret))[i],
        assignment_plan(None)[i],
    ) by {
        if i == 0 {
        } else {
            assert(assignment_plan(Some(secret))[i] == assignment_plan(None)[i]);
        }
    }
}

/// The first constraint of the circuit that an assignment breaks.
#[derive(Clone, Copy, Debug)]
pub enum Violation {
    /// No secret was supplied.
    MissingSecret,
    /// The digest of the secret is not the instance's commitment.
    CommitmentMismatch,
    /// The secret is not above the lower bound.
    NotAboveLower,
    /// The secret is not below the upper bound.
    NotBelowUpper,
}

/// The range-commitment circuit: a private secret and its public bounds.
#[derive(Clone, Copy, Debug)]
pub struct RangeCommitCircuit {
    pub secret: Option<u64>,
    pub lower: u64,
    pub upper: u64,
}

impl Default for RangeCommitCircuit {
    fn default() -> (r: RangeCommitCircuit)
        ensures
            r.secret is None,
            r.lower == 0,
            r.upper == 0,
    {
        RangeCommitCircuit { secret: None, lower: 0, upper: 0 }
    }
}

impl RangeCommitCircuit {
    /// A circuit that proves `lower < secret < upper`.
    pub fn new(secret: u64, lower: u64, upper: u64) -> (r: RangeCommitCircuit)
        ensures
            r.secret == Some(secret),
            r.lower == lower,
            r.upper == upper,
    {
        RangeCommitCircuit { secret: Some(secret), lower, upper }
    }

    /// The same circuit with no witness: what keys are derived from.
    pub fn without_witnesses(&self) -> (r: RangeCommitCircuit)
        ensures
            r.secret is None,
            r.lower == 0,
            r.upper == 0,
    {
        RangeCommitCircuit::default()
    }

    /// The assignment steps in `mode`. Key generation assigns no value;
    /// proving without a secret fails before anything is assigned.
    pub fn synthesize(&self, mode: Mode) -> (r: Result<Vec<Step>, WitnessError>)
        ensures
            r is Err <==> (mode is Prove && self.secret is None),
            r is Err ==> r->Err_0 is MissingSecret,
            r is Ok ==> r->Ok_0@ == assignment_plan(
                if mode is KeyGen {
                    None
                } else {
                    self.secret
                },
            ),
    {
        let value = match mode {
            Mode::KeyGen => None,
            Mode::Prove => match self.secret {
                Some(s) => Some(s),
                None => {
                    return Err(WitnessError::MissingSecret);
                },
            },
        };
        let steps = vec![
            Step::LoadSecret(value),
            Step::LoadBound(Operand::Lower, LOWER_ROW),
            Step::LoadBound(Operand::Upper, UPPER_ROW),
            Step::Commit,
            Step::ExposeCommitment(COMMITMENT_ROW),
            Step::AssertLess(Operand::Lower, Operand::Secret),
            Step::AssertLess(Operand::Secret, Operand::Upper),
        ];
        proof {
            assert(steps@ =~= assignment_plan(value));
        }
        Ok(steps)
    }

    /// The public instance for this circuit's bounds and `commitment`.
    pub fn instance(&self, commitment: Commitment) -> (r: Instance)
        ensures
            r.commitment == commitment,
            r.lower == self.lower,
            r.upper == self.upper,
    {
        Instance::new(commitment, self.lower, self.upper)
    }

    /// The first constraint, in assignment order, that this circuit's witness
    /// breaks against `instance`, where `digest` is the digest of the secret.
    pub fn check_with_digest(&self, instance: &Instance, digest: &Commitment) -> (r: Result<(), Violation>)
        ensures
            match self.secret {
                None => r == Err::<(), Violation>(Violation::MissingSecret),
                Some(s) => if instance.commitment.bytes@ != digest.bytes@ {
                    r == Err::<(), Violation>(Violation::CommitmentMismatch)
                } else if !(instance.lower < s) {
                    r == Err::<(), Violation>(Violation::NotAboveLower)
                } else if !(s < instance.upper) {
                    r == Err::<(), Violation>(Violation::NotBelowUpper)
                } else {
                    r is Ok
                },
            },
            r is Ok <==> (self.secret is Some && relation(
                self.secret->Some_0,
                digest.bytes@,
                *instance,
            )),
    {
        match self.secret {
            None => Err(Violation::MissingSecret),
            Some(s) => {
                if !instance.commitment.same_as(digest) {
                    Err(Violation::CommitmentMismatch)
                } else if !(instance.lower < s) {
                    Err(Violation::NotAboveLower)
                } else if !(s < instance.upper) {
                    Err(Violation::NotBelowUpper)
                } else {
                    Ok(())
                }
            },
        }
    }

    /// The first constraint, in assignment order, that this circuit's witness
    /// breaks against `instance`; `Ok` exactly when a proof can be made.
    pub fn check(&self, instance: &Instance) -> (r: Result<(), Violation>)
        ensures
            match self.secret {
                None => r == Err::<(), Violation>(Violation::MissingSecret),
                Some(s) => if instance.commitment.bytes@ != poseidon_digest(s) {
                    r == Err::<(), Violation>(Violation::CommitmentMismatch)
                } else if !(instance.lower < s) {
                    r == Err::<(), Violation>(Violation::NotAboveLower)
                } else if !(s < instance.upper) {
                    r == Err::<(), Violation>(Violation::NotBelowUpper)
                } else {
                    r is Ok
                },
            },
            r is Ok <==> (self.secret is Some && relation(
                self.secret->Some_0,
                poseidon_digest(self.secret->Some_0),
                *instance,
            )),
    {
        match self.secret {
            None => Err(Violation::MissingSecret),
            Some(s) => {
                let digest = commit(s);
                self.check_with_digest(instance, &digest)
            },
        }
    }
}

} // verus!
