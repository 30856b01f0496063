//! The order of the proof pipeline. Setup runs once per layout:
//! `Unconfigured -> Configured -> KeyGenerated`. Each witness instance then
//! runs its own round: `Unassigned -> Assigned -> Proven -> Accepted | Rejected`,
//! and a round that has ended takes no further event.
use vstd::prelude::*;

verus! {

/// Where setup stands.
#[derive(Clone, Copy, Debug, PartialEq, Eq, Structural)]
pub enum Phase {
    Unconfigured,
    Configured,
    KeyGenerated,
}

/// Where one witness instance stands.
#[derive(Clone, Copy, Debug, PartialEq, Eq, Structural)]
pub enum Round {
    Unassigned,
    Assigned,
    Proven,
    Accepted,
    Rejected,
}

/// What happens to a witness instance.
#[derive(Clone, Copy, Debug, PartialEq, Eq, Structural)]
pub enum RoundEvent {
    /// The circuit was given its witness.
    Assign,
    /// A proof was made.
    Prove,
    /// The proof was checked, with this outcome.
    Verify(bool),
}

/// An event came at a point where it has no transition.
#[derive(Clone, Copy, Debug, PartialEq, Eq, Structural)]
pub enum OrderError {
    OutOfOrder,
}

impl Phase {
    /// The phase after the next setup step, if there is one.
    pub open spec fn next_spec(self) -> Option<Phase> {
        match self {
            Phase::Unconfigured => Some(Phase::Configured),
            Phase::Configured => Some(Phase::KeyGenerated),
            Phase::KeyGenerated => None,
        }
    }

    /// Moves to the next setup phase; setup that is done is not run again.
    pub fn advance(&mut self) -> (r: Result<(), OrderError>)
        ensures
            match old(self).next_spec() {
                Some(p) => r is Ok && *final(self) == p,
                None => r == Err::<(), OrderError>(OrderError::OutOfOrder) && *final(self) == *old(self),
            },
    {
        match *self {
            Phase::Unconfigured => {
                *self = Phase::Configured;
                Ok(())
            },
            Phase::Configured => {
                *self = Phase::KeyGenerated;
                Ok(())
            },
            Phase::KeyGenerated => Err(OrderError::OutOfOrder),
        }
    }
}

impl Round {
    /// The round after `event`, given the setup `phase`, if there is one.
    /// Assigning and proving need the keys; a round that has ended stays ended.
    pub open spec fn next_spec(self, phase: Phase, event: RoundEvent) -> Option<Round> {
        match (self, event) {
            (Round::Unassigned, RoundEvent::Assign) => if phase == Phase::KeyGenerated {
                Some(Round::Assigned)
            } else {
                None
            },
            (Round::Assigned, RoundEvent::Prove) => if phase == Phase::KeyGenerated {
                Some(Round::Proven)
            } else {
                None
            },
            (Round::Proven, RoundEvent::Verify(ok)) => if ok {
                Some(Round::Accepted)
            } else {
                Some(Round::Rejected)
            },
            _ => None,
        }
    }

    /// Whether the round has ended.
    pub open spec fn is_terminal(self) -> bool {
        self == Round::Accepted || self == Round::Rejected
    }

    /// Applies `event`; out of order it is refused and the round is unchanged.
    pub fn apply(&mut self, phase: Phase, event: RoundEvent) -> (r: Result<(), OrderError>)
        ensures
            match old(self).next_spec(phase, event) {
                Some(n) => r is Ok && *final(self) == n,
                None => r == Err::<(), OrderError>(OrderError::OutOfOrder) && *final(self) == *old(self),
            },
    {
        let keyed = phase == Phase::KeyGenerated;
        match (*self, event) {
            (Round::Unassigned, RoundEvent::Assign) if keyed => {
                *self = Round::Assigned;
                Ok(())
            },
            (Round::Assigned, RoundEvent::Prove) if keyed => {
                *self = Round::Proven;
                Ok(())
            },
            (Round::Proven, RoundEvent::Verify(ok)) => {
                *self = if ok {
                    Round::Accepted
                } else {
                    Round::Rejected
                };
                Ok(())
            },
            _ => Err(OrderError::OutOfOrder),
        }
    }
}

/// An ended round takes no further event.
pub proof fn lemma_terminal_rounds_stay(round: Round, phase: Phase, event: RoundEvent)
    requires
        round.is_terminal(),
    ensures
        round.next_spec(phase, event) is None,
{
}

} // verus!
