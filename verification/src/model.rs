//! What each operation of the engine does, as mathematics: a function from
//! the registry before the call and the arguments to the registry after the
//! call and the reply.
//!
//! An operation first looks up the record, then asks the job's own guarded
//! transition for the next record, and writes that record back. Wherever
//! something stands against the operation, the registry stays exactly as it
//! was and the reply says why.

use vstd::prelude::*;
use crate::account::AccountId;
use crate::error::{EscrowError, Quantity};
use crate::job::{posting_fault, Action, Job};
use crate::payout::Settlement;
use crate::registry::RegistryState;
use crate::transfer::{Transfer, TransferOutcome};

verus! {

/// The result of one operation: the registry after it, and the reply.
pub struct Step<T> {
    pub state: RegistryState,
    pub reply: Result<T, EscrowError>,
}

/// A refused operation: the registry is untouched.
pub open spec fn refused<T>(s: RegistryState, e: EscrowError) -> Step<T> {
    Step { state: s, reply: Err(e) }
}

/// Writes the next record of `job_id` back, if the transition yielded one.
pub open spec fn rewritten(s: RegistryState, job_id: u64, next: Result<Job, EscrowError>) -> Step<
    (),
> {
    match next {
        Ok(job) => Step { state: s.with_record(job_id, job), reply: Ok(()) },
        Err(e) => refused(s, e),
    }
}

/// Posting a job: the caller must be the client and the terms must be valid;
/// then the next identifier is allocated and an open job is stored under it.
pub open spec fn post_job(
    s: RegistryState,
    caller: AccountId,
    client: AccountId,
    token: AccountId,
    amount: i128,
    soft_deadline: u64,
    hard_deadline: u64,
    penalty_per_sec: i128,
) -> Step<u64> {
    match posting_fault(caller, client, amount, soft_deadline, hard_deadline) {
        Some(e) => refused(s, e),
        None => match s.next_id() {
            None => refused(s, EscrowError::Overflow(Quantity::JobCounter)),
            Some(id) => Step {
                state: s.with_counter(id).with_record(
                    id,
                    Job::spec_fresh(
                        id,
                        client,
                        token,
                        amount,
                        soft_deadline,
                        hard_deadline,
                        penalty_per_sec,
                    ),
                ),
                reply: Ok(id),
            },
        },
    }
}

/// Assigning a freelancer with the final terms.
pub open spec fn assign_freelancer(
    s: RegistryState,
    caller: AccountId,
    job_id: u64,
    freelancer: AccountId,
    amount: i128,
    soft_deadline: u64,
    hard_deadline: u64,
    penalty_per_sec: i128,
) -> Step<()> {
    match s.record(job_id) {
        Err(e) => refused(s, e),
        Ok(job) => rewritten(
            s,
            job_id,
            job.assigned(caller, freelancer, amount, soft_deadline, hard_deadline, penalty_per_sec),
        ),
    }
}

/// Accepting the terms.
pub open spec fn accept_job(s: RegistryState, caller: AccountId, job_id: u64) -> Step<()> {
    match s.record(job_id) {
        Err(e) => refused(s, e),
        Ok(job) => rewritten(s, job_id, job.accepted(caller)),
    }
}

/// Amending the terms of an open job.
pub open spec fn update_job(
    s: RegistryState,
    caller: AccountId,
    job_id: u64,
    amount: i128,
    soft_deadline: u64,
    hard_deadline: u64,
    penalty_per_sec: i128,
) -> Step<()> {
    match s.record(job_id) {
        Err(e) => refused(s, e),
        Ok(job) => rewritten(
            s,
            job_id,
            job.updated(caller, amount, soft_deadline, hard_deadline, penalty_per_sec),
        ),
    }
}

/// The transfers to make before `fund` is called.
pub open spec fn funding_plan(s: RegistryState, caller: AccountId, job_id: u64) -> Result<
    Seq<Transfer>,
    EscrowError,
> {
    match s.record(job_id) {
        Err(e) => Err(e),
        Ok(job) => job.funding_transfers(caller),
    }
}

/// Funding an accepted job, given how the transfer into custody went.
pub open spec fn fund(
    s: RegistryState,
    caller: AccountId,
    job_id: u64,
    outcome: TransferOutcome,
) -> Step<()> {
    match s.record(job_id) {
        Err(e) => refused(s, e),
        Ok(job) => rewritten(s, job_id, job.funded(caller, outcome)),
    }
}

/// The transfers to make before `complete_job` is called at `now`.
pub open spec fn settlement_plan(
    s: RegistryState,
    caller: AccountId,
    job_id: u64,
    now: u64,
) -> Result<Seq<Transfer>, EscrowError> {
    match s.record(job_id) {
        Err(e) => Err(e),
        Ok(job) => job.settlement_transfers(caller, now),
    }
}

/// Completing a funded job at `now`, given how the transfers out of custody
/// went. The reply is the split that was paid.
pub open spec fn complete_job(
    s: RegistryState,
    caller: AccountId,
    job_id: u64,
    now: u64,
    outcome: TransferOutcome,
) -> Step<Settlement> {
    match s.record(job_id) {
        Err(e) => refused(s, e),
        Ok(job) => match job.completed(caller, now, outcome) {
            Err(e) => refused(s, e),
            Ok((next, split)) => Step { state: s.with_record(job_id, next), reply: Ok(split) },
        },
    }
}

/// The transfers to make before `cancel_job` is called.
pub open spec fn cancellation_plan(s: RegistryState, caller: AccountId, job_id: u64) -> Result<
    Seq<Transfer>,
    EscrowError,
> {
    match s.record(job_id) {
        Err(e) => Err(e),
        Ok(job) => job.cancellation_transfers(caller),
    }
}

/// Cancelling a job that has not reached a terminal state, given how the
/// refund went.
pub open spec fn cancel_job(
    s: RegistryState,
    caller: AccountId,
    job_id: u64,
    outcome: TransferOutcome,
) -> Step<()> {
    match s.record(job_id) {
        Err(e) => refused(s, e),
        Ok(job) => rewritten(s, job_id, job.cancelled(caller, outcome)),
    }
}

/// The account whose consent `action` needs on the job `job_id`.
pub open spec fn authority(s: RegistryState, action: Action, job_id: u64) -> Result<
    AccountId,
    EscrowError,
> {
    match s.record(job_id) {
        Err(e) => Err(e),
        Ok(job) => job.spec_authority(action),
    }
}

/// Whether a record that storage holds under `id` can belong to this
/// registry: the identifier must have been allocated.
pub open spec fn admits(s: RegistryState, id: u64) -> bool {
    1 <= id <= s.counter
}

/// A call of one of the engine's operations, with its arguments.
pub enum Operation {
    PostJob {
        caller: AccountId,
        client: AccountId,
        token: AccountId,
        amount: i128,
        soft_deadline: u64,
        hard_deadline: u64,
        penalty_per_sec: i128,
    },
    AssignFreelancer {
        caller: AccountId,
        job_id: u64,
        freelancer: AccountId,
        amount: i128,
        soft_deadline: u64,
        hard_deadline: u64,
        penalty_per_sec: i128,
    },
    AcceptJob { caller: AccountId, job_id: u64 },
    UpdateJob {
        caller: AccountId,
        job_id: u64,
        amount: i128,
        soft_deadline: u64,
        hard_deadline: u64,
        penalty_per_sec: i128,
    },
    Fund { caller: AccountId, job_id: u64, outcome: TransferOutcome },
    CompleteJob { caller: AccountId, job_id: u64, now: u64, outcome: TransferOutcome },
    CancelJob { caller: AccountId, job_id: u64, outcome: TransferOutcome },
}

/// What a call leaves behind, whatever its reply holds on success: the
/// registry after it, and the reason for which it was refused, if it was.
pub struct Verdict {
    pub state: RegistryState,
    pub refusal: Option<EscrowError>,
}

impl<T> Step<T> {
    /// This step without the value of its reply.
    pub open spec fn verdict(self) -> Verdict {
        Verdict { state: self.state, refusal: self.reply.err() }
    }
}

/// What the call `op` on `s` leaves behind.
pub open spec fn apply(s: RegistryState, op: Operation) -> Verdict {
    match op {
        Operation::PostJob {
            caller,
            client,
            token,
            amount,
            soft_deadline,
            hard_deadline,
            penalty_per_sec,
        } => post_job(
            s,
            caller,
            client,
            token,
            amount,
            soft_deadline,
            hard_deadline,
            penalty_per_sec,
        ).verdict(),
        Operation::AssignFreelancer {
            caller,
            job_id,
            freelancer,
            amount,
            soft_deadline,
            hard_deadline,
            penalty_per_sec,
        } => assign_freelancer(
            s,
            caller,
            job_id,
            freelancer,
            amount,
            soft_deadline,
            hard_deadline,
            penalty_per_sec,
        ).verdict(),
        Operation::AcceptJob { caller, job_id } => accept_job(s, caller, job_id).verdict(),
        Operation::UpdateJob {
            caller,
            job_id,
            amount,
            soft_deadline,
            hard_deadline,
            penalty_per_sec,
        } => update_job(
            s,
            caller,
            job_id,
            amount,
            soft_deadline,
            hard_deadline,
            penalty_per_sec,
        ).verdict(),
        Operation::Fund { caller, job_id, outcome } => fund(s, caller, job_id, outcome).verdict(),
        Operation::CompleteJob { caller, job_id, now, outcome } => complete_job(
            s,
            caller,
            job_id,
            now,
            outcome,
        ).verdict(),
        Operation::CancelJob { caller, job_id, outcome } => cancel_job(
            s,
            caller,
            job_id,
            outcome,
        ).verdict(),
    }
}

/// The registry after `op` was called on `s`.
pub open spec fn after(s: RegistryState, op: Operation) -> RegistryState {
    apply(s, op).state
}

/// Why `op` is refused on `s`, if it is.
pub open spec fn refusal(s: RegistryState, op: Operation) -> Option<EscrowError> {
    apply(s, op).refusal
}

/// The identifier that `op` creates on `s`: the reply of a posting that
/// succeeds.
pub open spec fn created(s: RegistryState, op: Operation) -> Option<u64> {
    match op {
        Operation::PostJob {
            caller,
            client,
            token,
            amount,
            soft_deadline,
            hard_deadline,
            penalty_per_sec,
        } => post_job(
            s,
            caller,
            client,
            token,
            amount,
            soft_deadline,
            hard_deadline,
            penalty_per_sec,
        ).reply.ok(),
        _ => None,
    }
}

impl Operation {
    /// The account that makes the call.
    pub open spec fn caller(self) -> AccountId {
        match self {
            Operation::PostJob { caller, .. } => caller,
            Operation::AssignFreelancer { caller, .. } => caller,
            Operation::AcceptJob { caller, .. } => caller,
            Operation::UpdateJob { caller, .. } => caller,
            Operation::Fund { caller, .. } => caller,
            Operation::CompleteJob { caller, .. } => caller,
            Operation::CancelJob { caller, .. } => caller,
        }
    }

    /// The job that the call works on; `None` for a posting, which works on
    /// no existing job.
    pub open spec fn job_id(self) -> Option<u64> {
        match self {
            Operation::PostJob { .. } => None,
            Operation::AssignFreelancer { job_id, .. } => Some(job_id),
            Operation::AcceptJob { job_id, .. } => Some(job_id),
            Operation::UpdateJob { job_id, .. } => Some(job_id),
            Operation::Fund { job_id, .. } => Some(job_id),
            Operation::CompleteJob { job_id, .. } => Some(job_id),
            Operation::CancelJob { job_id, .. } => Some(job_id),
        }
    }

    /// What the call does to the job that it works on; `None` for a posting.
    pub open spec fn action(self) -> Option<Action> {
        match self {
            Operation::PostJob { .. } => None,
            Operation::AssignFreelancer { .. } => Some(Action::AssignFreelancer),
            Operation::AcceptJob { .. } => Some(Action::AcceptJob),
            Operation::UpdateJob { .. } => Some(Action::UpdateJob),
            Operation::Fund { .. } => Some(Action::Fund),
            Operation::CompleteJob { .. } => Some(Action::CompleteJob),
            Operation::CancelJob { .. } => Some(Action::CancelJob),
        }
    }
}

/// The registry after the calls `ops` were made in order, starting from `s`.
pub open spec fn run(s: RegistryState, ops: Seq<Operation>) -> RegistryState
    decreases ops.len(),
{
    if ops.len() == 0 {
        s
    } else {
        after(run(s, ops.drop_last()), ops.last())
    }
}

/// The identifiers that the calls `ops` created, in the order of creation.
pub open spec fn issued(s: RegistryState, ops: Seq<Operation>) -> Seq<u64>
    decreases ops.len(),
{
    if ops.len() == 0 {
        Seq::empty()
    } else {
        let earlier = issued(s, ops.drop_last());
        match created(run(s, ops.drop_last()), ops.last()) {
            Some(id) => earlier.push(id),
            None => earlier,
        }
    }
}

} // verus!
