//! The job record and its guarded transitions.
//!
//! Each operation on a job is one function that checks who is calling and
//! what state the job is in, and only then yields the next record. A refused
//! operation yields an error and no record. For every transition there is a
//! `spec` function that says what the next record is, and an executable
//! function that computes it.

use vstd::prelude::*;
use crate::account::AccountId;
use crate::error::{EscrowError, Quantity, Term};
use crate::payout::{settle, settlement_at, Settlement};
use crate::state::JobState;
use crate::transfer::{plan_view, Party, Plan, Transfer, TransferOutcome};

verus! {

/// The record of one job.
#[derive(Clone, Copy, Debug, PartialEq, Eq)]
pub struct Job {
    /// The identifier under which the job is stored. It never changes.
    pub id: u64,
    /// The account that posted the job and pays for it.
    pub client: AccountId,
    /// The account that does the work; unset until the client assigns one.
    pub freelancer: Option<AccountId>,
    /// The asset in which the job is paid.
    pub token: AccountId,
    /// The agreed price.
    pub amount: i128,
    /// Work settled up to this time earns the full price.
    pub soft_deadline: u64,
    /// Work settled at or after this time earns nothing.
    pub hard_deadline: u64,
    /// What each second past the soft deadline takes off the price.
    pub penalty_per_sec: i128,
    /// Where the job stands in its life cycle.
    pub state: JobState,
}

/// The operations that work on an existing job.
#[derive(Clone, Copy, Debug, PartialEq, Eq, Structural)]
pub enum Action {
    /// Choosing the freelancer and fixing the final terms.
    AssignFreelancer,
    /// Agreeing to the terms.
    AcceptJob,
    /// Amending the terms.
    UpdateJob,
    /// Locking the price in custody.
    Fund,
    /// Settling the work.
    CompleteJob,
    /// Withdrawing the job.
    CancelJob,
}

/// What is wrong with proposed terms, if anything: the hard deadline must lie
/// after the soft one, and the amount must be positive. The deadlines are
/// looked at first.
pub open spec fn terms_fault(amount: i128, soft_deadline: u64, hard_deadline: u64) -> Option<Term> {
    if hard_deadline <= soft_deadline {
        Some(Term::Deadlines)
    } else if amount <= 0 {
        Some(Term::Amount)
    } else {
        None
    }
}

/// Why a new job with these terms may not be posted by `caller` for `client`,
/// if anything stands against it.
pub open spec fn posting_fault(
    caller: AccountId,
    client: AccountId,
    amount: i128,
    soft_deadline: u64,
    hard_deadline: u64,
) -> Option<EscrowError> {
    if caller != client {
        Some(EscrowError::Unauthorized(client))
    } else {
        match terms_fault(amount, soft_deadline, hard_deadline) {
            Some(term) => Some(EscrowError::InvalidTerms(term)),
            None => None,
        }
    }
}

/// Checks proposed terms.
pub fn check_terms(amount: i128, soft_deadline: u64, hard_deadline: u64) -> (fault: Option<Term>)
    ensures
        fault == terms_fault(amount, soft_deadline, hard_deadline),
{
    if hard_deadline <= soft_deadline {
        Some(Term::Deadlines)
    } else if amount <= 0 {
        Some(Term::Amount)
    } else {
        None
    }
}

/// Checks that `caller` may post a job with these terms for `client`.
pub fn check_posting(
    caller: AccountId,
    client: AccountId,
    amount: i128,
    soft_deadline: u64,
    hard_deadline: u64,
) -> (fault: Option<EscrowError>)
    ensures
        fault == posting_fault(caller, client, amount, soft_deadline, hard_deadline),
{
    if caller != client {
        Some(EscrowError::Unauthorized(client))
    } else {
        match check_terms(amount, soft_deadline, hard_deadline) {
            Some(term) => Some(EscrowError::InvalidTerms(term)),
            None => None,
        }
    }
}

impl Job {
    /// The terms are valid, and a job that has been assigned has a freelancer.
    pub open spec fn well_formed(self) -> bool {
        &&& terms_fault(self.amount, self.soft_deadline, self.hard_deadline) is None
        &&& self.state != JobState::Open && self.state != JobState::Failed
            ==> self.freelancer is Some
    }

    /// The account whose consent `action` needs on this job. Accepting is for
    /// the freelancer of an assigned job, and is out of the question for any
    /// other job; everything else is for the client.
    pub open spec fn spec_authority(&self, action: Action) -> Result<AccountId, EscrowError> {
        match action {
            Action::AcceptJob => if self.state != JobState::Assigned {
                Err(EscrowError::InvalidState(self.id))
            } else {
                match self.freelancer {
                    None => Err(EscrowError::InvalidState(self.id)),
                    Some(freelancer) => Ok(freelancer),
                }
            },
            _ => Ok(self.client),
        }
    }

    /// The record of a job that has just been posted: open, with no
    /// freelancer.
    pub open spec fn spec_fresh(
        id: u64,
        client: AccountId,
        token: AccountId,
        amount: i128,
        soft_deadline: u64,
        hard_deadline: u64,
        penalty_per_sec: i128,
    ) -> Job {
        Job {
            id,
            client,
            freelancer: None,
            token,
            amount,
            soft_deadline,
            hard_deadline,
            penalty_per_sec,
            state: JobState::Open,
        }
    }

    /// This record in another state.
    pub open spec fn in_state(self, state: JobState) -> Job {
        Job { state, ..self }
    }

    /// The record after the client has assigned `freelancer` with final
    /// terms, or why that is refused. Only the client may assign, only while
    /// the job is open, and only with valid terms.
    pub open spec fn assigned(
        self,
        caller: AccountId,
        freelancer: AccountId,
        amount: i128,
        soft_deadline: u64,
        hard_deadline: u64,
        penalty_per_sec: i128,
    ) -> Result<Job, EscrowError> {
        if caller != self.client {
            Err(EscrowError::Unauthorized(self.client))
        } else if self.state != JobState::Open {
            Err(EscrowError::InvalidState(self.id))
        } else {
            match terms_fault(amount, soft_deadline, hard_deadline) {
                Some(term) => Err(EscrowError::InvalidTerms(term)),
                None => Ok(
                    Job {
                        freelancer: Some(freelancer),
                        amount,
                        soft_deadline,
                        hard_deadline,
                        penalty_per_sec,
                        state: JobState::Assigned,
                        ..self
                    },
                ),
            }
        }
    }

    /// The record after the freelancer has accepted the terms, or why that is
    /// refused. The job must be assigned, and only its freelancer may accept.
    pub open spec fn accepted(self, caller: AccountId) -> Result<Job, EscrowError> {
        if self.state != JobState::Assigned {
            Err(EscrowError::InvalidState(self.id))
        } else {
            match self.freelancer {
                None => Err(EscrowError::InvalidState(self.id)),
                Some(freelancer) => if caller != freelancer {
                    Err(EscrowError::Unauthorized(freelancer))
                } else {
                    Ok(self.in_state(JobState::Accepted))
                },
            }
        }
    }

    /// The record after the client has amended the terms, or why that is
    /// refused. Only the client may amend, only while the job is open, and
    /// only to valid terms.
    pub open spec fn updated(
        self,
        caller: AccountId,
        amount: i128,
        soft_deadline: u64,
        hard_deadline: u64,
        penalty_per_sec: i128,
    ) -> Result<Job, EscrowError> {
        if caller != self.client {
            Err(EscrowError::Unauthorized(self.client))
        } else if self.state != JobState::Open {
            Err(EscrowError::InvalidState(self.id))
        } else {
            match terms_fault(amount, soft_deadline, hard_deadline) {
                Some(term) => Err(EscrowError::InvalidTerms(term)),
                None => Ok(Job { amount, soft_deadline, hard_deadline, penalty_per_sec, ..self }),
            }
        }
    }

    /// Why `caller` may not fund this job, if anything stands against it.
    /// Only the client may fund, and only an accepted job.
    pub open spec fn funding_fault(self, caller: AccountId) -> Option<EscrowError> {
        if caller != self.client {
            Some(EscrowError::Unauthorized(self.client))
        } else if self.state != JobState::Accepted {
            Some(EscrowError::InvalidState(self.id))
        } else {
            None
        }
    }

    /// The transfer that funds this job: the whole price, from the client
    /// into custody.
    pub open spec fn funding_transfer(self) -> Transfer {
        Transfer {
            token: self.token,
            from: Party::Account(self.client),
            to: Party::Custody,
            amount: self.amount,
        }
    }

    /// The transfers that `caller` has to make before the job counts as
    /// funded, or why funding is refused.
    pub open spec fn funding_transfers(self, caller: AccountId) -> Result<
        Seq<Transfer>,
        EscrowError,
    > {
        match self.funding_fault(caller) {
            Some(e) => Err(e),
            None => Ok(seq![self.funding_transfer()]),
        }
    }

    /// The record after funding, or why funding is refused. The job becomes
    /// funded only if the transfer into custody went through.
    pub open spec fn funded(self, caller: AccountId, outcome: TransferOutcome) -> Result<
        Job,
        EscrowError,
    > {
        match self.funding_fault(caller) {
            Some(e) => Err(e),
            None => if outcome == TransferOutcome::Failed {
                Err(EscrowError::TransferFailed(self.id))
            } else {
                Ok(self.in_state(JobState::Funded))
            },
        }
    }

    /// How the price is split if `caller` completes this job at `now`, or why
    /// completion is refused. Only the client may complete, only a funded job
    /// that has a freelancer, and the split must be computable without
    /// overflow.
    pub open spec fn settlement(self, caller: AccountId, now: u64) -> Result<
        Settlement,
        EscrowError,
    > {
        if caller != self.client {
            Err(EscrowError::Unauthorized(self.client))
        } else if self.state != JobState::Funded || self.freelancer is None {
            Err(EscrowError::InvalidState(self.id))
        } else {
            match settlement_at(
                self.amount,
                self.soft_deadline,
                self.hard_deadline,
                self.penalty_per_sec,
                now,
            ) {
                None => Err(EscrowError::Overflow(Quantity::Penalty(self.id))),
                Some(split) => Ok(split),
            }
        }
    }

    /// The transfer out of custody that gives `amount` to `to`, if `amount`
    /// is positive; nothing is transferred otherwise.
    pub open spec fn release(self, to: AccountId, amount: i128) -> Seq<Transfer> {
        if amount > 0 {
            seq![Transfer { token: self.token, from: Party::Custody, to: Party::Account(to), amount }]
        } else {
            Seq::empty()
        }
    }

    /// The transfers that carry out a split: the payout to the freelancer,
    /// then the refund to the client, each only if it is positive.
    pub open spec fn split_transfers(self, split: Settlement) -> Seq<Transfer>
        recommends
            self.freelancer is Some,
    {
        self.release(self.freelancer->0, split.payout) + self.release(self.client, split.refund)
    }

    /// The transfers that `caller` has to make before the job counts as
    /// completed at `now`, or why completion is refused.
    pub open spec fn settlement_transfers(self, caller: AccountId, now: u64) -> Result<
        Seq<Transfer>,
        EscrowError,
    > {
        match self.settlement(caller, now) {
            Err(e) => Err(e),
            Ok(split) => Ok(self.split_transfers(split)),
        }
    }

    /// The record and the split after completion at `now`, or why completion
    /// is refused. The job becomes completed only if the transfers out of
    /// custody went through.
    pub open spec fn completed(
        self,
        caller: AccountId,
        now: u64,
        outcome: TransferOutcome,
    ) -> Result<(Job, Settlement), EscrowError> {
        match self.settlement(caller, now) {
            Err(e) => Err(e),
            Ok(split) => if outcome == TransferOutcome::Failed {
                Err(EscrowError::TransferFailed(self.id))
            } else {
                Ok((self.in_state(JobState::Completed), split))
            },
        }
    }

    /// Why `caller` may not cancel this job, if anything stands against it.
    /// Only the client may cancel, and only a job that has not reached a
    /// terminal state.
    pub open spec fn cancellation_fault(self, caller: AccountId) -> Option<EscrowError> {
        if caller != self.client {
            Some(EscrowError::Unauthorized(self.client))
        } else if self.state.spec_is_terminal() {
            Some(EscrowError::InvalidState(self.id))
        } else {
            None
        }
    }

    /// The transfers that `caller` has to make before the job counts as
    /// cancelled, or why cancellation is refused. A funded job gives the
    /// whole price back to the client; before funding nothing is held, so
    /// nothing moves.
    pub open spec fn cancellation_transfers(self, caller: AccountId) -> Result<
        Seq<Transfer>,
        EscrowError,
    > {
        match self.cancellation_fault(caller) {
            Some(e) => Err(e),
            None => if self.state == JobState::Funded {
                Ok(self.release(self.client, self.amount))
            } else {
                Ok(Seq::empty())
            },
        }
    }

    /// The record after cancellation, or why cancellation is refused. The job
    /// becomes failed only if the caller does not report a failed transfer.
    pub open spec fn cancelled(self, caller: AccountId, outcome: TransferOutcome) -> Result<
        Job,
        EscrowError,
    > {
        match self.cancellation_fault(caller) {
            Some(e) => Err(e),
            None => if outcome == TransferOutcome::Failed {
                Err(EscrowError::TransferFailed(self.id))
            } else {
                Ok(self.in_state(JobState::Failed))
            },
        }
    }

    /// Tells whose consent `action` needs on this job, so that the caller can
    /// obtain it before the operation.
    #[verifier::when_used_as_spec(spec_authority)]
    pub fn authority(&self, action: Action) -> (who: Result<AccountId, EscrowError>)
        ensures
            who == self.spec_authority(action),
    {
        match action {
            Action::AcceptJob => {
                if self.state != JobState::Assigned {
                    return Err(EscrowError::InvalidState(self.id));
                }
                match self.freelancer {
                    None => Err(EscrowError::InvalidState(self.id)),
                    Some(freelancer) => Ok(freelancer),
                }
            },
            _ => Ok(self.client),
        }
    }

    /// Makes the record of a job that has just been posted.
    pub fn fresh(
        id: u64,
        client: AccountId,
        token: AccountId,
        amount: i128,
        soft_deadline: u64,
        hard_deadline: u64,
        penalty_per_sec: i128,
    ) -> (job: Job)
        ensures
            job == Job::spec_fresh(
                id,
                client,
                token,
                amount,
                soft_deadline,
                hard_deadline,
                penalty_per_sec,
            ),
    {
        Job {
            id,
            client,
            freelancer: None,
            token,
            amount,
            soft_deadline,
            hard_deadline,
            penalty_per_sec,
            state: JobState::Open,
        }
    }

    /// Assigns `freelancer` to this job with the final terms.
    pub fn assign(
        &self,
        caller: AccountId,
        freelancer: AccountId,
        amount: i128,
        soft_deadline: u64,
        hard_deadline: u64,
        penalty_per_sec: i128,
    ) -> (next: Result<Job, EscrowError>)
        ensures
            next == self.assigned(
                caller,
                freelancer,
                amount,
                soft_deadline,
                hard_deadline,
                penalty_per_sec,
            ),
    {
        if caller != self.client {
            return Err(EscrowError::Unauthorized(self.client));
        }
        if self.state != JobState::Open {
            return Err(EscrowError::InvalidState(self.id));
        }
        match check_terms(amount, soft_deadline, hard_deadline) {
            Some(term) => Err(EscrowError::InvalidTerms(term)),
            None => Ok(
                Job {
                    freelancer: Some(freelancer),
                    amount,
                    soft_deadline,
                    hard_deadline,
                    penalty_per_sec,
                    state: JobState::Assigned,
                    ..*self
                },
            ),
        }
    }

    /// Accepts the terms of this job on behalf of its freelancer.
    pub fn accept(&self, caller: AccountId) -> (next: Result<Job, EscrowError>)
        ensures
            next == self.accepted(caller),
    {
        if self.state != JobState::Assigned {
            return Err(EscrowError::InvalidState(self.id));
        }
        match self.freelancer {
            None => Err(EscrowError::InvalidState(self.id)),
            Some(freelancer) => {
                if caller != freelancer {
                    Err(EscrowError::Unauthorized(freelancer))
                } else {
                    Ok(Job { state: JobState::Accepted, ..*self })
                }
            },
        }
    }

    /// Amends the terms of this job.
    pub fn update(
        &self,
        caller: AccountId,
        amount: i128,
        soft_deadline: u64,
        hard_deadline: u64,
        penalty_per_sec: i128,
    ) -> (next: Result<Job, EscrowError>)
        ensures
            next == self.updated(caller, amount, soft_deadline, hard_deadline, penalty_per_sec),
    {
        if caller != self.client {
            return Err(EscrowError::Unauthorized(self.client));
        }
        if self.state != JobState::Open {
            return Err(EscrowError::InvalidState(self.id));
        }
        match check_terms(amount, soft_deadline, hard_deadline) {
            Some(term) => Err(EscrowError::InvalidTerms(term)),
            None => Ok(Job { amount, soft_deadline, hard_deadline, penalty_per_sec, ..*self }),
        }
    }

    /// Checks that `caller` may fund this job.
    fn check_funding(&self, caller: AccountId) -> (fault: Option<EscrowError>)
        ensures
            fault == self.funding_fault(caller),
    {
        if caller != self.client {
            Some(EscrowError::Unauthorized(self.client))
        } else if self.state != JobState::Accepted {
            Some(EscrowError::InvalidState(self.id))
        } else {
            None
        }
    }

    /// Lists the transfers that fund this job.
    pub fn plan_funding(&self, caller: AccountId) -> (plan: Plan)
        ensures
            plan_view(plan) == self.funding_transfers(caller),
    {
        match self.check_funding(caller) {
            Some(e) => Err(e),
            None => {
                let mut list: Vec<Transfer> = Vec::new();
                list.push(
                    Transfer {
                        token: self.token,
                        from: Party::Account(self.client),
                        to: Party::Custody,
                        amount: self.amount,
                    },
                );
                Ok(list)
            },
        }
    }

    /// Marks this job as funded, given how the funding transfer went.
    pub fn fund(&self, caller: AccountId, outcome: TransferOutcome) -> (next: Result<
        Job,
        EscrowError,
    >)
        ensures
            next == self.funded(caller, outcome),
    {
        match self.check_funding(caller) {
            Some(e) => Err(e),
            None => match outcome {
                TransferOutcome::Failed => Err(EscrowError::TransferFailed(self.id)),
                TransferOutcome::Succeeded => Ok(Job { state: JobState::Funded, ..*self }),
            },
        }
    }

    /// Computes how the price is split if `caller` completes this job at
    /// `now`.
    pub fn settle(&self, caller: AccountId, now: u64) -> (split: Result<Settlement, EscrowError>)
        ensures
            split == self.settlement(caller, now),
    {
        if caller != self.client {
            return Err(EscrowError::Unauthorized(self.client));
        }
        if self.state != JobState::Funded || self.freelancer.is_none() {
            return Err(EscrowError::InvalidState(self.id));
        }
        match settle(
            self.amount,
            self.soft_deadline,
            self.hard_deadline,
            self.penalty_per_sec,
            now,
        ) {
            None => Err(EscrowError::Overflow(Quantity::Penalty(self.id))),
            Some(split) => Ok(split),
        }
    }

    /// Appends to `list` the transfer out of custody that gives `amount` to
    /// `to`, if `amount` is positive.
    fn push_release(&self, list: &mut Vec<Transfer>, to: AccountId, amount: i128)
        ensures
            final(list)@ == old(list)@ + self.release(to, amount),
    {
        if amount > 0 {
            list.push(
                Transfer { token: self.token, from: Party::Custody, to: Party::Account(to), amount },
            );
        }
    }

    /// Lists the transfers that complete this job at `now`.
    pub fn plan_settlement(&self, caller: AccountId, now: u64) -> (plan: Plan)
        ensures
            plan_view(plan) == self.settlement_transfers(caller, now),
    {
        match self.settle(caller, now) {
            Err(e) => Err(e),
            Ok(split) => {
                let mut list: Vec<Transfer> = Vec::new();
                match self.freelancer {
                    Some(freelancer) => {
                        self.push_release(&mut list, freelancer, split.payout);
                    },
                    None => {},
                }
                self.push_release(&mut list, self.client, split.refund);
                Ok(list)
            },
        }
    }

    /// Marks this job as completed at `now`, given how the transfers of the
    /// split went.
    pub fn complete(&self, caller: AccountId, now: u64, outcome: TransferOutcome) -> (next: Result<
        (Job, Settlement),
        EscrowError,
    >)
        ensures
            next == self.completed(caller, now, outcome),
    {
        match self.settle(caller, now) {
            Err(e) => Err(e),
            Ok(split) => match outcome {
                TransferOutcome::Failed => Err(EscrowError::TransferFailed(self.id)),
                TransferOutcome::Succeeded => Ok((Job { state: JobState::Completed, ..*self }, split)),
            },
        }
    }

    /// Checks that `caller` may cancel this job.
    fn check_cancellation(&self, caller: AccountId) -> (fault: Option<EscrowError>)
        ensures
            fault == self.cancellation_fault(caller),
    {
        if caller != self.client {
            Some(EscrowError::Unauthorized(self.client))
        } else if self.state.is_terminal() {
            Some(EscrowError::InvalidState(self.id))
        } else {
            None
        }
    }

    /// Lists the transfers that cancel this job.
    pub fn plan_cancellation(&self, caller: AccountId) -> (plan: Plan)
        ensures
            plan_view(plan) == self.cancellation_transfers(caller),
    {
        match self.check_cancellation(caller) {
            Some(e) => Err(e),
            None => {
                let mut list: Vec<Transfer> = Vec::new();
                if self.state == JobState::Funded {
                    self.push_release(&mut list, self.client, self.amount);
                }
                Ok(list)
            },
        }
    }

    /// Marks this job as failed, given how the refund went.
    pub fn cancel(&self, caller: AccountId, outcome: TransferOutcome) -> (next: Result<
        Job,
        EscrowError,
    >)
        ensures
            next == self.cancelled(caller, outcome),
    {
        match self.check_cancellation(caller) {
            Some(e) => Err(e),
            None => match outcome {
                TransferOutcome::Failed => Err(EscrowError::TransferFailed(self.id)),
                TransferOutcome::Succeeded => Ok(Job { state: JobState::Failed, ..*self }),
            },
        }
    }
}

} // verus!
