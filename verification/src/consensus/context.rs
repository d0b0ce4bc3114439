//! The role that a service plays in one round.

use vstd::prelude::*;

verus! {

/// The role binding of a service for one epoch. A service drives the round
/// or answers to the one that does, never both.
#[derive(Debug, Clone, Copy, PartialEq, Eq, Structural)]
pub enum Context {
    /// The service drives the round.
    Coordinator,
    /// The service responds to a coordinator.
    Participant,
}

impl Context {
    /// The other role.
    pub open spec fn spec_opposite(self) -> Context {
        match self {
            Context::Coordinator => Context::Participant,
            Context::Participant => Context::Coordinator,
        }
    }

    /// The other role.
    #[verifier::when_used_as_spec(spec_opposite)]
    pub fn opposite(self) -> (other: Context)
        ensures
            other == self.spec_opposite(),
    {
        match self {
            Context::Coordinator => Context::Participant,
            Context::Participant => Context::Coordinator,
        }
    }
}

/// The role that the context tables give a service for an epoch: the one
/// whose row exists, if exactly one does.
pub open spec fn role_of(coordinator: bool, participant: bool) -> Option<Context> {
    if coordinator && !participant {
        Some(Context::Coordinator)
    } else if participant && !coordinator {
        Some(Context::Participant)
    } else {
        None
    }
}

} // verus!
