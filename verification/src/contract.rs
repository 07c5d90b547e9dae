//! The engine: every operation on jobs, over one registry.
//!
//! The contract of each operation says three things. The registry after the
//! call and the reply are exactly what the model of the operation yields. A
//! refused call leaves the registry as it was. And whatever the call does, no
//! job is removed or moved backward. What follows from the model beyond that
//! is proved in `laws`.

use vstd::prelude::*;
use crate::account::AccountId;
use crate::error::{EscrowError, Quantity};
use crate::job::{check_posting, Action, Job};
use crate::laws::{
    law_identifiers_count_up, law_operations_advance, law_posted_jobs_have_valid_terms,
    law_refusal_changes_nothing, law_update_needs_open_job,
};
use crate::model;
use crate::model::Operation;
use crate::payout::Settlement;
use crate::registry::{JobRegistry, RegistryState};
use crate::state::JobState;
use crate::storage::StorageEffect;
use crate::transfer::{plan_view, Plan, TransferOutcome};

verus! {

/// The escrow engine. It owns the registry; jobs change only through its
/// operations.
///
/// Every operation names the `caller`: the account that has proved its
/// consent to the call. An operation that needs another account's consent is
/// refused as `Unauthorized`. `authority` tells beforehand whose consent an
/// operation needs.
///
/// The engine moves no value itself. Before `fund`, `complete_job` and
/// `cancel_job` the caller asks for the plan of transfers, carries it out as
/// one unit, and then tells the operation how that went.
///
/// The registry of an engine is always consistent: every record sits under
/// its own identifier, and that identifier has been allocated.
pub struct FreelanceContract {
    registry: JobRegistry,
}

impl View for FreelanceContract {
    type V = RegistryState;

    closed spec fn view(&self) -> RegistryState {
        self.registry@
    }
}

impl FreelanceContract {
    #[verifier::type_invariant]
    spec fn sound(&self) -> bool {
        self.registry@.consistent()
    }

    /// Makes an engine that has never been used: no identifier is allocated,
    /// and there is no record.
    pub fn new() -> (contract: FreelanceContract)
        ensures
            contract@ == RegistryState::fresh(),
            contract@.consistent(),
    {
        FreelanceContract { registry: JobRegistry::new() }
    }

    /// Makes an engine that continues from a stored counter, with no record
    /// loaded. A counter that was never stored counts as zero.
    pub fn restore(counter: Option<u64>) -> (contract: FreelanceContract)
        ensures
            contract@ == RegistryState::restored(counter),
            contract@.consistent(),
    {
        FreelanceContract { registry: JobRegistry::restore(counter) }
    }

    /// Takes in a record that durable storage holds under `id`, so that
    /// operations can work on it. A record under an identifier that was never
    /// allocated is not taken in, and `false` is returned.
    pub fn load(&mut self, id: u64, job: Job) -> (admitted: bool)
        ensures
            admitted == model::admits(old(self)@, id),
            admitted ==> final(self)@ == old(self)@.with_loaded(id, job),
            !admitted ==> final(self)@ == old(self)@,
            final(self)@.consistent(),
    {
        proof {
            use_type_invariant(&*self);
        }
        if id == 0 || id > self.registry.counter() {
            return false;
        }
        let mut registry = JobRegistry::new();
        std::mem::swap(&mut registry, &mut self.registry);
        registry.load(id, job);
        self.registry = registry;
        true
    }

    /// The last identifier that was allocated.
    pub fn counter(&self) -> (c: u64)
        ensures
            c == self@.counter,
            self@.consistent(),
    {
        proof {
            use_type_invariant(self);
        }
        self.registry.counter()
    }

    /// Reads the record of `id`.
    pub fn get(&self, id: u64) -> (job: Result<Job, EscrowError>)
        ensures
            job == self@.record(id),
            self@.consistent(),
    {
        proof {
            use_type_invariant(self);
        }
        self.registry.get(id)
    }

    /// Tells whose consent `action` needs on the job `job_id`, so that the
    /// caller can obtain it and then name that account as `caller`.
    pub fn authority(&self, action: Action, job_id: u64) -> (who: Result<AccountId, EscrowError>)
        ensures
            who == model::authority(self@, action, job_id),
    {
        match self.registry.get(job_id) {
            Err(e) => Err(e),
            Ok(job) => job.authority(action),
        }
    }

    /// Hands out the writes that durable storage has to receive for the
    /// operations that succeeded since the last call, oldest first.
    pub fn take_effects(&mut self) -> (effects: Vec<StorageEffect>)
        ensures
            effects@ == old(self)@.journal,
            final(self)@ == old(self)@.flushed(),
            final(self)@.consistent(),
    {
        proof {
            use_type_invariant(&*self);
        }
        let mut registry = JobRegistry::new();
        std::mem::swap(&mut registry, &mut self.registry);
        let effects = registry.take_effects();
        self.registry = registry;
        effects
    }

    /// Allocates the next identifier.
    fn allocate(&mut self) -> (id: Result<u64, EscrowError>)
        ensures
            (match old(self)@.next_id() {
                Some(next) => id == Ok::<u64, EscrowError>(next) && final(self)@ == old(
                    self,
                )@.with_counter(next),
                None => id == Err::<u64, EscrowError>(EscrowError::Overflow(Quantity::JobCounter))
                    && final(self)@ == old(self)@,
            }),
    {
        proof {
            use_type_invariant(&*self);
        }
        let mut registry = JobRegistry::new();
        std::mem::swap(&mut registry, &mut self.registry);
        let id = registry.allocate_id();
        self.registry = registry;
        id
    }

    /// Writes `job` as the record of `id`, which has been allocated.
    fn store(&mut self, id: u64, job: Job)
        requires
            model::admits(old(self)@, id),
        ensures
            final(self)@ == old(self)@.with_record(id, job),
    {
        proof {
            use_type_invariant(&*self);
        }
        let mut registry = JobRegistry::new();
        std::mem::swap(&mut registry, &mut self.registry);
        registry.put(id, job);
        self.registry = registry;
    }

    /// Writes the next record of `job_id` back, if the transition yielded one.
    fn rewrite(&mut self, job_id: u64, next: Result<Job, EscrowError>) -> (reply: Result<
        (),
        EscrowError,
    >)
        requires
            old(self)@.jobs.contains_key(job_id),
        ensures
            ({
                let step = model::rewritten(old(self)@, job_id, next);
                final(self)@ == step.state && reply == step.reply
            }),
    {
        proof {
            use_type_invariant(&*self);
        }
        match next {
            Ok(job) => {
                self.store(job_id, job);
                Ok(())
            },
            Err(e) => Err(e),
        }
    }

    /// Posts a job for `client` and returns its identifier.
    ///
    /// The caller must be the client, the hard deadline must lie after the
    /// soft one, and the amount must be positive. The identifier is one more
    /// than the last one allocated; the job is stored under it, open and
    /// without a freelancer. A refused posting allocates nothing.
    pub fn post_job(
        &mut self,
        caller: AccountId,
        client: AccountId,
        token: AccountId,
        initial_amount: i128,
        soft_deadline: u64,
        hard_deadline: u64,
        penalty_per_sec: i128,
    ) -> (reply: Result<u64, EscrowError>)
        ensures
            ({
                let step = model::post_job(
                    old(self)@,
                    caller,
                    client,
                    token,
                    initial_amount,
                    soft_deadline,
                    hard_deadline,
                    penalty_per_sec,
                );
                final(self)@ == step.state && reply == step.reply
            }),
            reply is Err ==> final(self)@ == old(self)@,
            old(self)@.advances_to(final(self)@),
            final(self)@.consistent(),
            reply matches Ok(id) ==> ({
                &&& id == old(self)@.counter + 1
                &&& final(self)@.counter == id
                &&& !old(self)@.jobs.contains_key(id)
                &&& hard_deadline > soft_deadline
                &&& initial_amount > 0
            }),
    {
        proof {
            use_type_invariant(&*self);
            let op = Operation::PostJob {
                caller,
                client,
                token,
                amount: initial_amount,
                soft_deadline,
                hard_deadline,
                penalty_per_sec,
            };
            law_operations_advance(self@, op);
            law_identifiers_count_up(self@, op);
            law_posted_jobs_have_valid_terms(
                self@,
                caller,
                client,
                token,
                initial_amount,
                soft_deadline,
                hard_deadline,
                penalty_per_sec,
            );
        }
        match check_posting(caller, client, initial_amount, soft_deadline, hard_deadline) {
            Some(e) => {
                return Err(e);
            },
            None => {},
        }
        let id: u64 = match self.allocate() {
            Ok(id) => id,
            Err(e) => {
                return Err(e);
            },
        };
        let job = Job::fresh(
            id,
            client,
            token,
            initial_amount,
            soft_deadline,
            hard_deadline,
            penalty_per_sec,
        );
        self.store(id, job);
        Ok(id)
    }

    /// Assigns `freelancer` to the job and fixes the final terms.
    ///
    /// Only the client may assign, only while the job is open, and only with
    /// valid terms. The job becomes assigned.
    pub fn assign_freelancer(
        &mut self,
        caller: AccountId,
        job_id: u64,
        freelancer: AccountId,
        final_amount: i128,
        final_soft: u64,
        final_hard: u64,
        final_penalty: i128,
    ) -> (reply: Result<(), EscrowError>)
        ensures
            ({
                let step = model::assign_freelancer(
                    old(self)@,
                    caller,
                    job_id,
                    freelancer,
                    final_amount,
                    final_soft,
                    final_hard,
                    final_penalty,
                );
                final(self)@ == step.state && reply == step.reply
            }),
            reply is Err ==> final(self)@ == old(self)@,
            old(self)@.advances_to(final(self)@),
            final(self)@.consistent(),
    {
        proof {
            use_type_invariant(&*self);
            let op = Operation::AssignFreelancer {
                caller,
                job_id,
                freelancer,
                amount: final_amount,
                soft_deadline: final_soft,
                hard_deadline: final_hard,
                penalty_per_sec: final_penalty,
            };
            law_operations_advance(self@, op);
            if model::refusal(self@, op) is Some {
                law_refusal_changes_nothing(self@, op);
            }
        }
        match self.registry.get(job_id) {
            Err(e) => Err(e),
            Ok(job) => {
                let next = job.assign(
                    caller,
                    freelancer,
                    final_amount,
                    final_soft,
                    final_hard,
                    final_penalty,
                );
                self.rewrite(job_id, next)
            },
        }
    }

    /// Accepts the terms of the job on behalf of its freelancer.
    ///
    /// The job must be assigned, and only its freelancer may accept. The job
    /// becomes accepted; from then on its terms are fixed.
    pub fn accept_job(&mut self, caller: AccountId, job_id: u64) -> (reply: Result<
        (),
        EscrowError,
    >)
        ensures
            ({
                let step = model::accept_job(old(self)@, caller, job_id);
                final(self)@ == step.state && reply == step.reply
            }),
            reply is Err ==> final(self)@ == old(self)@,
            old(self)@.advances_to(final(self)@),
            final(self)@.consistent(),
    {
        proof {
            use_type_invariant(&*self);
            let op = Operation::AcceptJob { caller, job_id };
            law_operations_advance(self@, op);
            if model::refusal(self@, op) is Some {
                law_refusal_changes_nothing(self@, op);
            }
        }
        match self.registry.get(job_id) {
            Err(e) => Err(e),
            Ok(job) => {
                let next = job.accept(caller);
                self.rewrite(job_id, next)
            },
        }
    }

    /// Amends the terms of a job that is still open.
    ///
    /// Only the client may amend, and only to valid terms. The call succeeds
    /// only on an open job; for the client it fails with `InvalidState` on a
    /// job in any other state.
    pub fn update_job(
        &mut self,
        caller: AccountId,
        job_id: u64,
        new_amount: i128,
        new_soft: u64,
        new_hard: u64,
        new_penalty: i128,
    ) -> (reply: Result<(), EscrowError>)
        ensures
            ({
                let step = model::update_job(
                    old(self)@,
                    caller,
                    job_id,
                    new_amount,
                    new_soft,
                    new_hard,
                    new_penalty,
                );
                final(self)@ == step.state && reply == step.reply
            }),
            reply is Err ==> final(self)@ == old(self)@,
            old(self)@.advances_to(final(self)@),
            final(self)@.consistent(),
            reply is Ok ==> old(self)@.jobs.contains_key(job_id) && old(self)@.jobs[job_id].state
                == JobState::Open,
            old(self)@.jobs.contains_key(job_id) && caller == old(self)@.jobs[job_id].client && old(
                self,
            )@.jobs[job_id].state != JobState::Open ==> reply == Err::<(), EscrowError>(
                EscrowError::InvalidState(job_id),
            ),
    {
        proof {
            use_type_invariant(&*self);
            let op = Operation::UpdateJob {
                caller,
                job_id,
                amount: new_amount,
                soft_deadline: new_soft,
                hard_deadline: new_hard,
                penalty_per_sec: new_penalty,
            };
            law_operations_advance(self@, op);
            if model::refusal(self@, op) is Some {
                law_refusal_changes_nothing(self@, op);
            }
            if self@.jobs.contains_key(job_id) {
                law_update_needs_open_job(
                    self@,
                    caller,
                    job_id,
                    new_amount,
                    new_soft,
                    new_hard,
                    new_penalty,
                );
            }
        }
        match self.registry.get(job_id) {
            Err(e) => Err(e),
            Ok(job) => {
                let next = job.update(caller, new_amount, new_soft, new_hard, new_penalty);
                self.rewrite(job_id, next)
            },
        }
    }

    /// Lists the transfers that the caller has to make before `fund`: the
    /// whole price, from the client into custody.
    pub fn funding_plan(&self, caller: AccountId, job_id: u64) -> (plan: Plan)
        ensures
            plan_view(plan) == model::funding_plan(self@, caller, job_id),
    {
        match self.registry.get(job_id) {
            Err(e) => Err(e),
            Ok(job) => job.plan_funding(caller),
        }
    }

    /// Marks an accepted job as funded, given how the transfer of the funding
    /// plan went.
    ///
    /// Only the client may fund, and only an accepted job. The job becomes
    /// funded only if the transfer went through; if it failed, the call fails
    /// with `TransferFailed` and the job stays accepted.
    pub fn fund(&mut self, caller: AccountId, job_id: u64, outcome: TransferOutcome) -> (reply:
        Result<(), EscrowError>)
        ensures
            ({
                let step = model::fund(old(self)@, caller, job_id, outcome);
                final(self)@ == step.state && reply == step.reply
            }),
            reply is Err ==> final(self)@ == old(self)@,
            old(self)@.advances_to(final(self)@),
            final(self)@.consistent(),
    {
        proof {
            use_type_invariant(&*self);
            let op = Operation::Fund { caller, job_id, outcome };
            law_operations_advance(self@, op);
            if model::refusal(self@, op) is Some {
                law_refusal_changes_nothing(self@, op);
            }
        }
        match self.registry.get(job_id) {
            Err(e) => Err(e),
            Ok(job) => {
                let next = job.fund(caller, outcome);
                self.rewrite(job_id, next)
            },
        }
    }

    /// Lists the transfers that the caller has to make before `complete_job`
    /// at `now`: the payout to the freelancer and the refund to the client,
    /// each only if it is positive.
    pub fn settlement_plan(&self, caller: AccountId, job_id: u64, now: u64) -> (plan: Plan)
        ensures
            plan_view(plan) == model::settlement_plan(self@, caller, job_id, now),
    {
        match self.registry.get(job_id) {
            Err(e) => Err(e),
            Ok(job) => job.plan_settlement(caller, now),
        }
    }

    /// Marks a funded job as completed at `now`, given how the transfers of
    /// the settlement plan went, and returns the split that was paid.
    ///
    /// Only the client may complete, and only a funded job. The job becomes
    /// completed only if the transfers went through; if they failed, the call
    /// fails with `TransferFailed`, the job stays funded, and the call can be
    /// made again.
    pub fn complete_job(
        &mut self,
        caller: AccountId,
        job_id: u64,
        now: u64,
        outcome: TransferOutcome,
    ) -> (reply: Result<Settlement, EscrowError>)
        ensures
            ({
                let step = model::complete_job(old(self)@, caller, job_id, now, outcome);
                final(self)@ == step.state && reply == step.reply
            }),
            reply is Err ==> final(self)@ == old(self)@,
            old(self)@.advances_to(final(self)@),
            final(self)@.consistent(),
            reply matches Ok(split) ==> split.payout + split.refund == old(
                self,
            )@.jobs[job_id].amount,
    {
        proof {
            use_type_invariant(&*self);
            let op = Operation::CompleteJob { caller, job_id, now, outcome };
            law_operations_advance(self@, op);
            if model::refusal(self@, op) is Some {
                law_refusal_changes_nothing(self@, op);
            }
        }
        match self.registry.get(job_id) {
            Err(e) => Err(e),
            Ok(job) => match job.complete(caller, now, outcome) {
                Err(e) => Err(e),
                Ok((next, split)) => {
                    self.store(job_id, next);
                    Ok(split)
                },
            },
        }
    }

    /// Lists the transfers that the caller has to make before `cancel_job`:
    /// the whole price back to the client if the job is funded, nothing
    /// otherwise.
    pub fn cancellation_plan(&self, caller: AccountId, job_id: u64) -> (plan: Plan)
        ensures
            plan_view(plan) == model::cancellation_plan(self@, caller, job_id),
    {
        match self.registry.get(job_id) {
            Err(e) => Err(e),
            Ok(job) => job.plan_cancellation(caller),
        }
    }

    /// Withdraws a job that has not reached a terminal state, given how the
    /// transfers of the cancellation plan went.
    ///
    /// Only the client may cancel. The job becomes failed only if the caller
    /// does not tell of a failed transfer; otherwise the call fails with
    /// `TransferFailed` and the job stays as it is.
    pub fn cancel_job(&mut self, caller: AccountId, job_id: u64, outcome: TransferOutcome) -> (reply:
        Result<(), EscrowError>)
        ensures
            ({
                let step = model::cancel_job(old(self)@, caller, job_id, outcome);
                final(self)@ == step.state && reply == step.reply
            }),
            reply is Err ==> final(self)@ == old(self)@,
            old(self)@.advances_to(final(self)@),
            final(self)@.consistent(),
    {
        proof {
            use_type_invariant(&*self);
            let op = Operation::CancelJob { caller, job_id, outcome };
            law_operations_advance(self@, op);
            if model::refusal(self@, op) is Some {
                law_refusal_changes_nothing(self@, op);
            }
        }
        match self.registry.get(job_id) {
            Err(e) => Err(e),
            Ok(job) => {
                let next = job.cancel(caller, outcome);
                self.rewrite(job_id, next)
            },
        }
    }
}

} // verus!
