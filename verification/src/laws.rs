//! What holds of the engine as a whole, proved from the model of its
//! operations.

use vstd::prelude::*;
use crate::account::AccountId;
use crate::error::EscrowError;
use crate::job::{terms_fault, Job};
use crate::model;
use crate::model::{after, created, issued, refusal, run, Operation};
use crate::payout::{law_split_is_bounded, lemma_settlement_in_range, Settlement};
use crate::registry::RegistryState;
use crate::state::{lemma_edges_lead_forward, JobState};
use crate::transfer::{Party, Transfer, TransferOutcome};

verus! {

/// What `op` makes of the record that it works on, or why it is refused.
pub open spec fn transition(job: Job, op: Operation) -> Result<Job, EscrowError>
    recommends
        op.job_id() is Some,
{
    match op {
        Operation::PostJob { .. } => Ok(job),
        Operation::AssignFreelancer {
            caller,
            freelancer,
            amount,
            soft_deadline,
            hard_deadline,
            penalty_per_sec,
            ..
        } => job.assigned(caller, freelancer, amount, soft_deadline, hard_deadline, penalty_per_sec),
        Operation::AcceptJob { caller, .. } => job.accepted(caller),
        Operation::UpdateJob {
            caller,
            amount,
            soft_deadline,
            hard_deadline,
            penalty_per_sec,
            ..
        } => job.updated(caller, amount, soft_deadline, hard_deadline, penalty_per_sec),
        Operation::Fund { caller, outcome, .. } => job.funded(caller, outcome),
        Operation::CompleteJob { caller, now, outcome, .. } => match job.completed(
            caller,
            now,
            outcome,
        ) {
            Ok((next, _)) => Ok(next),
            Err(e) => Err(e),
        },
        Operation::CancelJob { caller, outcome, .. } => job.cancelled(caller, outcome),
    }
}

/// An operation on an existing job looks the record up, applies the job's
/// own transition, and writes the next record back under the same
/// identifier. Wherever the record is missing or the transition is refused,
/// the registry is untouched.
pub proof fn lemma_operation_rewrites_one_record(s: RegistryState, op: Operation)
    requires
        op.job_id() is Some,
    ensures
        ({
            let job_id = op.job_id()->0;
            match s.record(job_id) {
                Err(e) => after(s, op) == s && refusal(s, op) == Some(e),
                Ok(job) => match transition(job, op) {
                    Ok(next) => after(s, op) == s.with_record(job_id, next) && refusal(s, op)
                        is None,
                    Err(e) => after(s, op) == s && refusal(s, op) == Some(e),
                },
            }
        }),
        created(s, op) is None,
{
}

/// A posting either is refused and leaves the registry untouched, or
/// allocates the next identifier and stores a fresh job under it.
pub proof fn lemma_posting_adds_one_record(s: RegistryState, op: Operation)
    requires
        op.job_id() is None,
    ensures
        op is PostJob,
        (match created(s, op) {
            None => after(s, op) == s && refusal(s, op) is Some,
            Some(id) => {
                &&& refusal(s, op) is None
                &&& s.next_id() == Some(id)
                &&& after(s, op) == s.with_counter(id).with_record(
                    id,
                    Job::spec_fresh(
                        id,
                        op->PostJob_client,
                        op->PostJob_token,
                        op->PostJob_amount,
                        op->PostJob_soft_deadline,
                        op->PostJob_hard_deadline,
                        op->PostJob_penalty_per_sec,
                    ),
                )
                &&& terms_fault(
                    op->PostJob_amount,
                    op->PostJob_soft_deadline,
                    op->PostJob_hard_deadline,
                ) is None
            },
        }),
{
}

/// A transition that succeeds keeps the identifier, the client and the asset;
/// it keeps the state or takes one step along the life cycle; it starts from
/// a state that is not terminal; it changes terms and freelancer only on an
/// open job; and it keeps a well-formed record well formed.
pub proof fn lemma_transition_steps_forward(job: Job, op: Operation)
    requires
        op.job_id() is Some,
        transition(job, op) is Ok,
    ensures
        ({
            let next = transition(job, op)->Ok_0;
            &&& next.id == job.id
            &&& next.client == job.client
            &&& next.token == job.token
            &&& next.state == job.state || job.state.may_become(next.state)
            &&& !job.state.spec_is_terminal()
            &&& job.state != JobState::Open ==> {
                &&& next.amount == job.amount
                &&& next.soft_deadline == job.soft_deadline
                &&& next.hard_deadline == job.hard_deadline
                &&& next.penalty_per_sec == job.penalty_per_sec
                &&& next.freelancer == job.freelancer
            }
            &&& job.well_formed() ==> next.well_formed()
        }),
{
}

/// A refused operation leaves no trace: the records, the counter and the
/// journal are exactly as before.
pub proof fn law_refusal_changes_nothing(s: RegistryState, op: Operation)
    requires
        refusal(s, op) is Some,
    ensures
        after(s, op) == s,
{
    if op.job_id() is Some {
        lemma_operation_rewrites_one_record(s, op);
    } else {
        lemma_posting_adds_one_record(s, op);
    }
}

/// No operation moves a job backward or removes it. A job only ever stays in
/// its state or takes one step along the life cycle, and its identifier, its
/// client and its asset never change.
pub proof fn law_operations_advance(s: RegistryState, op: Operation)
    requires
        s.consistent(),
    ensures
        s.advances_to(after(s, op)),
{
    let later = after(s, op);
    if op.job_id() is Some {
        let job_id = op.job_id()->0;
        lemma_operation_rewrites_one_record(s, op);
        if s.record(job_id) is Ok && transition(s.jobs[job_id], op) is Ok {
            lemma_transition_steps_forward(s.jobs[job_id], op);
        }
    } else {
        lemma_posting_adds_one_record(s, op);
    }
    assert forall|id: u64| #[trigger] s.jobs.contains_key(id) implies {
        let old_job = s.jobs[id];
        let new_job = later.jobs[id];
        &&& later.jobs.contains_key(id)
        &&& new_job.id == old_job.id
        &&& new_job.client == old_job.client
        &&& new_job.token == old_job.token
        &&& new_job.state == old_job.state || old_job.state.may_become(new_job.state)
    } by {}
}

/// The code of a job's state never decreases, whatever is called.
pub proof fn law_state_code_never_decreases(s: RegistryState, op: Operation, id: u64)
    requires
        s.consistent(),
        s.jobs.contains_key(id),
    ensures
        after(s, op).jobs.contains_key(id),
        s.jobs[id].state.spec_code() <= after(s, op).jobs[id].state.spec_code(),
{
    law_operations_advance(s, op);
    let from = s.jobs[id].state;
    let to = after(s, op).jobs[id].state;
    if from != to {
        lemma_edges_lead_forward(from, to);
    }
}

/// A job in a terminal state is never touched again: every operation leaves
/// its record as it is, and an operation on it is refused, with
/// `InvalidState` where the caller is the job's client.
pub proof fn law_terminal_jobs_are_final(s: RegistryState, op: Operation, id: u64)
    requires
        s.consistent(),
        s.jobs.contains_key(id),
        s.jobs[id].state.spec_is_terminal(),
    ensures
        after(s, op).jobs.contains_key(id),
        after(s, op).jobs[id] == s.jobs[id],
        op.job_id() == Some(id) ==> refusal(s, op) is Some,
        op.job_id() == Some(id) && op.caller() == s.jobs[id].client ==> refusal(s, op) == Some(
            EscrowError::InvalidState(id),
        ),
{
    if op.job_id() is Some {
        let job_id = op.job_id()->0;
        lemma_operation_rewrites_one_record(s, op);
        if s.record(job_id) is Ok && transition(s.jobs[job_id], op) is Ok {
            lemma_transition_steps_forward(s.jobs[job_id], op);
        }
    } else {
        lemma_posting_adds_one_record(s, op);
    }
}

/// The terms of a job and its freelancer change only while it is open.
pub proof fn law_terms_are_fixed_once_assigned(s: RegistryState, op: Operation, id: u64)
    requires
        s.consistent(),
        s.jobs.contains_key(id),
        s.jobs[id].state != JobState::Open,
    ensures
        after(s, op).jobs.contains_key(id),
        after(s, op).jobs[id].amount == s.jobs[id].amount,
        after(s, op).jobs[id].soft_deadline == s.jobs[id].soft_deadline,
        after(s, op).jobs[id].hard_deadline == s.jobs[id].hard_deadline,
        after(s, op).jobs[id].penalty_per_sec == s.jobs[id].penalty_per_sec,
        after(s, op).jobs[id].freelancer == s.jobs[id].freelancer,
{
    if op.job_id() is Some {
        let job_id = op.job_id()->0;
        lemma_operation_rewrites_one_record(s, op);
        if s.record(job_id) is Ok && transition(s.jobs[job_id], op) is Ok {
            lemma_transition_steps_forward(s.jobs[job_id], op);
        }
    } else {
        lemma_posting_adds_one_record(s, op);
    }
}

/// Operations keep the registry consistent: records stay under their own
/// identifiers, and only under identifiers that were allocated.
pub proof fn law_consistency_is_kept(s: RegistryState, op: Operation)
    requires
        s.consistent(),
    ensures
        after(s, op).consistent(),
{
    let later = after(s, op);
    if op.job_id() is Some {
        lemma_operation_rewrites_one_record(s, op);
    } else {
        lemma_posting_adds_one_record(s, op);
    }
    assert forall|id: u64| #[trigger] later.jobs.contains_key(id) implies 1 <= id <= later.counter
        && later.jobs[id].id == id by {}
}

/// Operations keep every record well formed.
pub proof fn law_well_formedness_is_kept(s: RegistryState, op: Operation)
    requires
        s.all_well_formed(),
    ensures
        after(s, op).all_well_formed(),
{
    let later = after(s, op);
    if op.job_id() is Some {
        let job_id = op.job_id()->0;
        lemma_operation_rewrites_one_record(s, op);
        if s.record(job_id) is Ok && transition(s.jobs[job_id], op) is Ok {
            lemma_transition_steps_forward(s.jobs[job_id], op);
        }
    } else {
        lemma_posting_adds_one_record(s, op);
    }
    assert forall|id: u64| #[trigger] later.jobs.contains_key(id) implies later.jobs[id].well_formed() by {}
}

/// A posting that succeeds had valid terms: the hard deadline after the soft
/// one, and a positive amount. The job it stores is open, has no freelancer,
/// and carries exactly these terms.
pub proof fn law_posted_jobs_have_valid_terms(
    s: RegistryState,
    caller: AccountId,
    client: AccountId,
    token: AccountId,
    amount: i128,
    soft_deadline: u64,
    hard_deadline: u64,
    penalty_per_sec: i128,
)
    ensures
        model::post_job(
            s,
            caller,
            client,
            token,
            amount,
            soft_deadline,
            hard_deadline,
            penalty_per_sec,
        ).reply matches Ok(id) ==> ({
            let stored = model::post_job(
                s,
                caller,
                client,
                token,
                amount,
                soft_deadline,
                hard_deadline,
                penalty_per_sec,
            ).state.jobs[id];
            &&& caller == client
            &&& hard_deadline > soft_deadline
            &&& amount > 0
            &&& stored == Job::spec_fresh(
                id,
                client,
                token,
                amount,
                soft_deadline,
                hard_deadline,
                penalty_per_sec,
            )
            &&& stored.well_formed()
        }),
{
}

/// A posting by the client with invalid terms fails with `InvalidTerms` and
/// allocates no identifier: the counter, the records and the journal stay as
/// they were.
pub proof fn law_invalid_postings_allocate_nothing(
    s: RegistryState,
    client: AccountId,
    token: AccountId,
    amount: i128,
    soft_deadline: u64,
    hard_deadline: u64,
    penalty_per_sec: i128,
)
    requires
        hard_deadline <= soft_deadline || amount <= 0,
    ensures
        model::post_job(
            s,
            client,
            client,
            token,
            amount,
            soft_deadline,
            hard_deadline,
            penalty_per_sec,
        ).reply matches Err(EscrowError::InvalidTerms(_)),
        model::post_job(
            s,
            client,
            client,
            token,
            amount,
            soft_deadline,
            hard_deadline,
            penalty_per_sec,
        ).state == s,
{
}

/// Identifiers count up: a posting that succeeds replies one more than the
/// counter and leaves the counter at its reply, and the identifier is new.
/// Nothing else moves the counter.
pub proof fn law_identifiers_count_up(s: RegistryState, op: Operation)
    requires
        s.consistent(),
    ensures
        (match created(s, op) {
            Some(id) => {
                &&& id == s.counter + 1
                &&& after(s, op).counter == id
                &&& !s.jobs.contains_key(id)
                &&& after(s, op).jobs.contains_key(id)
            },
            None => after(s, op).counter == s.counter,
        }),
{
    if op.job_id() is Some {
        lemma_operation_rewrites_one_record(s, op);
    } else {
        lemma_posting_adds_one_record(s, op);
    }
}

/// Whatever is called, in whatever order, a consistent registry stays
/// consistent, and the identifiers that are created have no gaps and no
/// repeats: the first is one more than the counter at the start, each
/// further one is one more than the one before, and the counter ends at the
/// last. On a registry that has never been used, `n` successful postings
/// therefore create exactly the identifiers 1 to `n`.
pub proof fn law_identifiers_are_sequential(s: RegistryState, ops: Seq<Operation>)
    requires
        s.consistent(),
    ensures
        run(s, ops).consistent(),
        run(s, ops).counter == s.counter + issued(s, ops).len(),
        forall|k: int|
            0 <= k < issued(s, ops).len() ==> #[trigger] issued(s, ops)[k] == s.counter + k + 1,
    decreases ops.len(),
{
    if ops.len() > 0 {
        let before = run(s, ops.drop_last());
        law_identifiers_are_sequential(s, ops.drop_last());
        law_consistency_is_kept(before, ops.last());
        law_identifiers_count_up(before, ops.last());
    }
}

/// Whatever is called, in whatever order, every job that was there at the
/// start is still there at the end, and the code of its state has not
/// decreased.
pub proof fn law_jobs_never_go_back(s: RegistryState, ops: Seq<Operation>, id: u64)
    requires
        s.consistent(),
        s.jobs.contains_key(id),
    ensures
        run(s, ops).jobs.contains_key(id),
        s.jobs[id].state.spec_code() <= run(s, ops).jobs[id].state.spec_code(),
    decreases ops.len(),
{
    if ops.len() > 0 {
        let before = run(s, ops.drop_last());
        law_jobs_never_go_back(s, ops.drop_last(), id);
        law_identifiers_are_sequential(s, ops.drop_last());
        law_state_code_never_decreases(before, ops.last(), id);
    }
}

/// Calls that work on different jobs do not affect each other: each is
/// judged the same whether it comes first or second, and both orders leave
/// the same records and the same counter.
pub proof fn law_calls_on_different_jobs_are_independent(
    s: RegistryState,
    first: Operation,
    second: Operation,
)
    requires
        first.job_id() is Some,
        second.job_id() is Some,
        first.job_id() != second.job_id(),
    ensures
        refusal(after(s, first), second) == refusal(s, second),
        refusal(after(s, second), first) == refusal(s, first),
        after(after(s, first), second).jobs == after(after(s, second), first).jobs,
        after(after(s, first), second).counter == after(after(s, second), first).counter,
{
    lemma_operation_rewrites_one_record(s, first);
    lemma_operation_rewrites_one_record(s, second);
    lemma_operation_rewrites_one_record(after(s, first), second);
    lemma_operation_rewrites_one_record(after(s, second), first);
    assert(after(after(s, first), second).jobs =~= after(after(s, second), first).jobs);
}

/// A registry that has never been used is consistent and holds no record
/// that is not well formed, and so is every registry that is restored from a
/// stored counter.
pub proof fn law_new_registries_are_consistent(counter: Option<u64>)
    ensures
        RegistryState::fresh().consistent(),
        RegistryState::restored(counter).consistent(),
        RegistryState::fresh().all_well_formed(),
        RegistryState::restored(counter).all_well_formed(),
{
}

/// Loading a record under an allocated identifier keeps the registry
/// consistent.
pub proof fn law_loading_keeps_consistency(s: RegistryState, id: u64, job: Job)
    requires
        s.consistent(),
        model::admits(s, id),
    ensures
        s.with_loaded(id, job).consistent(),
{
}

/// Amending succeeds only on an open job. For the client, on any other state
/// it fails with `InvalidState`, and on an open job it succeeds exactly when
/// the new terms are valid.
pub proof fn law_update_needs_open_job(
    s: RegistryState,
    caller: AccountId,
    job_id: u64,
    amount: i128,
    soft_deadline: u64,
    hard_deadline: u64,
    penalty_per_sec: i128,
)
    requires
        s.consistent(),
        s.jobs.contains_key(job_id),
    ensures
        ({
            let job = s.jobs[job_id];
            let step = model::update_job(
                s,
                caller,
                job_id,
                amount,
                soft_deadline,
                hard_deadline,
                penalty_per_sec,
            );
            &&& step.reply is Ok ==> job.state == JobState::Open
            &&& caller == job.client && job.state != JobState::Open ==> step.reply == Err::<
                (),
                EscrowError,
            >(EscrowError::InvalidState(job_id)) && step.state == s
            &&& caller == job.client && job.state == JobState::Open ==> (step.reply is Ok
                <==> terms_fault(amount, soft_deadline, hard_deadline) is None)
        }),
{
}

/// Accepting a job that is not assigned fails with `InvalidState`, whoever
/// calls; in particular on a job that is still open.
pub proof fn law_accept_needs_assigned_job(s: RegistryState, caller: AccountId, job_id: u64)
    requires
        s.consistent(),
        s.jobs.contains_key(job_id),
        s.jobs[job_id].state != JobState::Assigned,
    ensures
        model::accept_job(s, caller, job_id).reply == Err::<(), EscrowError>(
            EscrowError::InvalidState(job_id),
        ),
        model::accept_job(s, caller, job_id).state == s,
{
}

/// The account that `authority` names is the one that decides: where it
/// names none, the call fails for that very reason whoever makes it; a call
/// by any other account fails with `Unauthorized`, naming the account, and
/// changes nothing; and a call by the account itself never fails with
/// `Unauthorized`. So whoever is not the job's client cannot assign a
/// freelancer, amend, fund, complete or cancel.
pub proof fn law_authority_decides_who_may_call(s: RegistryState, op: Operation)
    requires
        op.job_id() is Some,
    ensures
        ({
            match model::authority(s, op.action()->0, op.job_id()->0) {
                Err(e) => refusal(s, op) == Some(e) && after(s, op) == s,
                Ok(who) => if op.caller() == who {
                    !(refusal(s, op) matches Some(EscrowError::Unauthorized(_)))
                } else {
                    refusal(s, op) == Some(EscrowError::Unauthorized(who)) && after(s, op) == s
                },
            }
        }),
{
    lemma_operation_rewrites_one_record(s, op);
}

/// A completion whose transfers failed leaves everything as it was: the job
/// is still funded, and a retry is judged, planned and settled exactly as the
/// first attempt would have been. The plan of the retry holds no transfer on
/// account of the failed attempt.
pub proof fn law_failed_completion_can_be_retried(
    s: RegistryState,
    caller: AccountId,
    job_id: u64,
    now: u64,
    later: u64,
)
    requires
        s.consistent(),
        model::settlement_plan(s, caller, job_id, now) is Ok,
    ensures
        ({
            let failed = model::complete_job(s, caller, job_id, now, TransferOutcome::Failed);
            &&& failed.reply == Err::<Settlement, EscrowError>(
                EscrowError::TransferFailed(job_id),
            )
            &&& failed.state == s
            &&& failed.state.jobs[job_id].state == JobState::Funded
            &&& model::settlement_plan(failed.state, caller, job_id, later)
                == model::settlement_plan(s, caller, job_id, later)
            &&& model::complete_job(
                failed.state,
                caller,
                job_id,
                now,
                TransferOutcome::Succeeded,
            ).reply is Ok
        }),
{
}

/// A job is settled at most once: after a completion that succeeded, no
/// further plan of transfers is issued for the job and no further completion
/// or cancellation is accepted.
pub proof fn law_completed_jobs_are_settled_once(
    s: RegistryState,
    caller: AccountId,
    job_id: u64,
    now: u64,
    again: AccountId,
    later: u64,
    outcome: TransferOutcome,
)
    requires
        model::complete_job(s, caller, job_id, now, TransferOutcome::Succeeded).reply is Ok,
    ensures
        ({
            let done = model::complete_job(s, caller, job_id, now, TransferOutcome::Succeeded).state;
            &&& done.jobs.contains_key(job_id)
            &&& done.jobs[job_id].state == JobState::Completed
            &&& model::settlement_plan(done, again, job_id, later) is Err
            &&& model::cancellation_plan(done, again, job_id) is Err
            &&& model::funding_plan(done, again, job_id) is Err
            &&& model::complete_job(done, again, job_id, later, outcome).reply is Err
            &&& model::cancel_job(done, again, job_id, outcome).reply is Err
        }),
{
}

/// The plan of an operation and the operation itself are judged alike: the
/// plan is issued exactly when the operation would succeed once its transfers
/// went through, and otherwise both fail for the same reason.
pub proof fn law_plans_agree_with_operations(
    s: RegistryState,
    caller: AccountId,
    job_id: u64,
    now: u64,
)
    ensures
        model::funding_plan(s, caller, job_id).err() == model::fund(
            s,
            caller,
            job_id,
            TransferOutcome::Succeeded,
        ).reply.err(),
        model::settlement_plan(s, caller, job_id, now).err() == model::complete_job(
            s,
            caller,
            job_id,
            now,
            TransferOutcome::Succeeded,
        ).reply.err(),
        model::cancellation_plan(s, caller, job_id).err() == model::cancel_job(
            s,
            caller,
            job_id,
            TransferOutcome::Succeeded,
        ).reply.err(),
{
}

/// The sum of the amounts of a list of transfers.
pub open spec fn total(transfers: Seq<Transfer>) -> int
    decreases transfers.len(),
{
    if transfers.len() == 0 {
        0
    } else {
        total(transfers.drop_last()) + transfers.last().amount
    }
}

/// What one release moves: the amount if it is positive, nothing otherwise.
proof fn lemma_total_of_release(job: Job, to: AccountId, amount: i128)
    ensures
        total(job.release(to, amount)) == if amount > 0 {
            amount as int
        } else {
            0
        },
        job.release(to, amount).len() <= 1,
{
    let list = job.release(to, amount);
    if amount > 0 {
        assert(list.drop_last() =~= Seq::<Transfer>::empty());
        assert(total(list.drop_last()) == 0);
    }
}

/// What two lists of at most one transfer each move together.
proof fn lemma_total_of_two(first: Seq<Transfer>, second: Seq<Transfer>)
    requires
        first.len() <= 1,
        second.len() <= 1,
    ensures
        total(first + second) == total(first) + total(second),
{
    let both = first + second;
    if second.len() == 0 {
        assert(both =~= first);
    } else {
        assert(both.drop_last() =~= first);
        assert(both.last() == second.last());
        assert(second.drop_last() =~= Seq::<Transfer>::empty());
        assert(total(second.drop_last()) == 0);
    }
}

/// Custody gives out exactly what it took in. Funding moves the price into
/// custody. Completing a job whose price and penalty rate are not negative
/// moves that same sum out again, to the freelancer and the client together,
/// and so does cancelling a funded job with a positive price. No transfer out
/// of custody has an amount of zero or less.
pub proof fn law_custody_gives_out_what_it_took_in(job: Job, caller: AccountId, now: u64)
    requires
        job.amount >= 0,
        job.penalty_per_sec >= 0,
    ensures
        job.funding_transfers(caller) matches Ok(list) ==> total(list) == job.amount,
        job.settlement_transfers(caller, now) matches Ok(list) ==> total(list) == job.amount && (
        forall|i: int| 0 <= i < list.len() ==> (#[trigger] list[i]).amount > 0),
        job.cancellation_transfers(caller) matches Ok(list) ==> total(list) == (if job.state
            == JobState::Funded {
            job.amount as int
        } else {
            0
        }) && (forall|i: int| 0 <= i < list.len() ==> (#[trigger] list[i]).amount > 0),
{
    if job.funding_transfers(caller) is Ok {
        let list = job.funding_transfers(caller)->Ok_0;
        assert(list.drop_last() =~= Seq::<Transfer>::empty());
        assert(total(list.drop_last()) == 0);
    }
    if job.settlement_transfers(caller, now) is Ok {
        let split = job.settlement(caller, now)->Ok_0;
        let freelancer = job.freelancer->0;
        law_split_is_bounded(
            job.amount,
            job.soft_deadline,
            job.hard_deadline,
            job.penalty_per_sec,
            now,
        );
        lemma_settlement_in_range(
            job.amount,
            job.soft_deadline,
            job.hard_deadline,
            job.penalty_per_sec,
            now,
        );
        lemma_total_of_release(job, freelancer, split.payout);
        lemma_total_of_release(job, job.client, split.refund);
        lemma_total_of_two(
            job.release(freelancer, split.payout),
            job.release(job.client, split.refund),
        );
    }
    if job.cancellation_transfers(caller) is Ok {
        lemma_total_of_release(job, job.client, job.amount);
        assert(total(Seq::<Transfer>::empty()) == 0);
    }
}

/// What custody holds for a job according to its record: the price while the
/// job is funded, nothing before and nothing after.
pub open spec fn escrowed(job: Job) -> int {
    if job.state == JobState::Funded {
        job.amount as int
    } else {
        0
    }
}

/// What a transfer adds to custody: its amount if it goes into custody, less
/// its amount if it comes out of custody.
pub open spec fn flow(transfer: Transfer) -> int {
    (if transfer.to == Party::Custody {
        transfer.amount as int
    } else {
        0
    }) - (if transfer.from == Party::Custody {
        transfer.amount as int
    } else {
        0
    })
}

/// What a list of transfers adds to custody.
pub open spec fn inflow(transfers: Seq<Transfer>) -> int
    decreases transfers.len(),
{
    if transfers.len() == 0 {
        0
    } else {
        inflow(transfers.drop_last()) + flow(transfers.last())
    }
}

/// The transfers that go with a call on a job: the plan that the caller
/// carries out before funding, completing or cancelling; nothing for any
/// other call, and nothing where no plan is issued.
pub open spec fn transfers_of(job: Job, op: Operation) -> Seq<Transfer> {
    let plan = match op {
        Operation::Fund { caller, .. } => job.funding_transfers(caller),
        Operation::CompleteJob { caller, now, .. } => job.settlement_transfers(caller, now),
        Operation::CancelJob { caller, .. } => job.cancellation_transfers(caller),
        _ => Ok(Seq::empty()),
    };
    match plan {
        Ok(list) => list,
        Err(_) => Seq::empty(),
    }
}

/// A release takes out of custody what it moves.
proof fn lemma_inflow_of_release(job: Job, to: AccountId, amount: i128)
    ensures
        inflow(job.release(to, amount)) == -total(job.release(to, amount)),
{
    let list = job.release(to, amount);
    if amount > 0 {
        assert(list.drop_last() =~= Seq::<Transfer>::empty());
        assert(total(list.drop_last()) == 0);
        assert(inflow(list.drop_last()) == 0);
    }
}

/// What two lists of at most one transfer each add to custody together.
proof fn lemma_inflow_of_two(first: Seq<Transfer>, second: Seq<Transfer>)
    requires
        first.len() <= 1,
        second.len() <= 1,
    ensures
        inflow(first + second) == inflow(first) + inflow(second),
{
    let both = first + second;
    if second.len() == 0 {
        assert(both =~= first);
    } else {
        assert(both.drop_last() =~= first);
        assert(both.last() == second.last());
        assert(second.drop_last() =~= Seq::<Transfer>::empty());
        assert(inflow(second.drop_last()) == 0);
    }
}

/// The books and custody agree. For a job whose price and penalty rate are
/// not negative, every call that succeeds changes what the record says is
/// held for the job by exactly what the transfers of the call add to custody.
/// So as long as the transfers of every successful call are carried out,
/// custody holds the price of each funded job and nothing for any other job.
pub proof fn law_custody_matches_the_records(job: Job, op: Operation)
    requires
        op.job_id() is Some,
        transition(job, op) is Ok,
        job.amount >= 0,
        job.penalty_per_sec >= 0,
    ensures
        escrowed(transition(job, op)->Ok_0) == escrowed(job) + inflow(transfers_of(job, op)),
{
    let list = transfers_of(job, op);
    match op {
        Operation::Fund { caller, .. } => {
            assert(list.drop_last() =~= Seq::<Transfer>::empty());
            assert(inflow(list.drop_last()) == 0);
        },
        Operation::CompleteJob { caller, now, .. } => {
            let split = job.settlement(caller, now)->Ok_0;
            let freelancer = job.freelancer->0;
            law_custody_gives_out_what_it_took_in(job, caller, now);
            lemma_total_of_release(job, freelancer, split.payout);
            lemma_total_of_release(job, job.client, split.refund);
            lemma_total_of_two(
                job.release(freelancer, split.payout),
                job.release(job.client, split.refund),
            );
            lemma_inflow_of_release(job, freelancer, split.payout);
            lemma_inflow_of_release(job, job.client, split.refund);
            lemma_inflow_of_two(
                job.release(freelancer, split.payout),
                job.release(job.client, split.refund),
            );
        },
        Operation::CancelJob { caller, .. } => {
            law_custody_gives_out_what_it_took_in(job, caller, 0);
            lemma_inflow_of_release(job, job.client, job.amount);
            assert(inflow(Seq::<Transfer>::empty()) == 0);
        },
        _ => {
            assert(inflow(Seq::<Transfer>::empty()) == 0);
        },
    }
}

} // verus!
