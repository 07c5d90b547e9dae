//! The life cycle of a job.

use vstd::prelude::*;

verus! {

/// Where a job stands in its life cycle.
///
/// A job moves along `Open`, `Assigned`, `Accepted`, `Funded`, `Completed`,
/// one step at a time, or leaves that path for `Failed`. `Completed` and
/// `Failed` are terminal.
#[derive(Clone, Copy, Debug, PartialEq, Eq, Structural)]
pub enum JobState {
    /// Posted by the client; terms may still be amended.
    Open,
    /// The client has chosen a freelancer and fixed the final terms.
    Assigned,
    /// The freelancer has agreed to the terms; the job awaits funding.
    Accepted,
    /// The price is held in escrow.
    Funded,
    /// The work was settled and the escrow paid out.
    Completed,
    /// The job was withdrawn before completion.
    Failed,
}

impl JobState {
    /// The numeric code of a state: its position in the life cycle.
    pub open spec fn spec_code(self) -> u32 {
        match self {
            JobState::Open => 0,
            JobState::Assigned => 1,
            JobState::Accepted => 2,
            JobState::Funded => 3,
            JobState::Completed => 4,
            JobState::Failed => 5,
        }
    }

    /// No transition leaves a terminal state.
    pub open spec fn spec_is_terminal(self) -> bool {
        self == JobState::Completed || self == JobState::Failed
    }

    /// The edges of the life cycle: `self` may be followed directly by `next`.
    pub open spec fn may_become(self, next: JobState) -> bool {
        match (self, next) {
            (JobState::Open, JobState::Assigned) => true,
            (JobState::Assigned, JobState::Accepted) => true,
            (JobState::Accepted, JobState::Funded) => true,
            (JobState::Funded, JobState::Completed) => true,
            (_, JobState::Failed) => !self.spec_is_terminal(),
            _ => false,
        }
    }

    /// The numeric code of this state.
    #[verifier::when_used_as_spec(spec_code)]
    pub fn code(self) -> (c: u32)
        ensures
            c == self.spec_code(),
    {
        match self {
            JobState::Open => 0,
            JobState::Assigned => 1,
            JobState::Accepted => 2,
            JobState::Funded => 3,
            JobState::Completed => 4,
            JobState::Failed => 5,
        }
    }

    /// Whether this state is terminal.
    #[verifier::when_used_as_spec(spec_is_terminal)]
    pub fn is_terminal(self) -> (t: bool)
        ensures
            t == self.spec_is_terminal(),
    {
        match self {
            JobState::Completed | JobState::Failed => true,
            _ => false,
        }
    }
}

/// Every edge of the life cycle leads to a state with a larger code, so no
/// chain of transitions returns to a state it has left.
pub proof fn lemma_edges_lead_forward(from: JobState, to: JobState)
    requires
        from.may_become(to),
    ensures
        from.spec_code() < to.spec_code(),
        !from.spec_is_terminal(),
{
}

} // verus!
