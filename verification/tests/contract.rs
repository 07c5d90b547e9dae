use freelance_escrow::{
    AccountId, AccountKind, Action, DataKey, EscrowError, FreelanceContract, Job, JobState, Party,
    Quantity, Settlement, StorageEffect, Term, Transfer, TransferOutcome,
};

fn client() -> AccountId {
    AccountId { kind: AccountKind::Account, hi: 0, lo: 1 }
}

fn worker() -> AccountId {
    AccountId { kind: AccountKind::Account, hi: 0, lo: 2 }
}

fn stranger() -> AccountId {
    AccountId { kind: AccountKind::Account, hi: 0, lo: 3 }
}

fn token() -> AccountId {
    AccountId { kind: AccountKind::Contract, hi: 5, lo: 5 }
}

const OK: TransferOutcome = TransferOutcome::Succeeded;
const FAILED: TransferOutcome = TransferOutcome::Failed;

/// A contract with one job, terms 1000 / 100 / 200 / 10, taken as far as
/// `state` along the life cycle.
fn contract_with_job_in(state: JobState) -> FreelanceContract {
    let mut contract = FreelanceContract::new();
    assert_eq!(contract.post_job(client(), client(), token(), 1000, 100, 200, 10), Ok(1));
    if state == JobState::Open {
        return contract;
    }
    if state == JobState::Failed {
        contract.cancel_job(client(), 1, OK).unwrap();
        return contract;
    }
    contract.assign_freelancer(client(), 1, worker(), 1000, 100, 200, 10).unwrap();
    if state == JobState::Assigned {
        return contract;
    }
    contract.accept_job(worker(), 1).unwrap();
    if state == JobState::Accepted {
        return contract;
    }
    contract.fund(client(), 1, OK).unwrap();
    if state == JobState::Funded {
        return contract;
    }
    contract.complete_job(client(), 1, 150, OK).unwrap();
    contract
}

const ALL_STATES: [JobState; 6] = [
    JobState::Open,
    JobState::Assigned,
    JobState::Accepted,
    JobState::Funded,
    JobState::Completed,
    JobState::Failed,
];

#[test]
fn helper_reaches_every_state() {
    for state in ALL_STATES {
        assert_eq!(contract_with_job_in(state).get(1).unwrap().state, state);
    }
}

#[test]
fn posting_stores_an_open_job_under_the_first_identifier() {
    let mut contract = FreelanceContract::new();
    assert_eq!(contract.post_job(client(), client(), token(), 1000, 100, 200, 10), Ok(1));
    assert_eq!(contract.counter(), 1);
    assert_eq!(
        contract.get(1),
        Ok(Job {
            id: 1,
            client: client(),
            freelancer: None,
            token: token(),
            amount: 1000,
            soft_deadline: 100,
            hard_deadline: 200,
            penalty_per_sec: 10,
            state: JobState::Open,
        })
    );
}

#[test]
fn posting_journals_counter_record_and_lifetime() {
    let mut contract = FreelanceContract::new();
    contract.post_job(client(), client(), token(), 1000, 100, 200, 10).unwrap();
    let job = contract.get(1).unwrap();
    assert_eq!(
        contract.take_effects(),
        vec![
            StorageEffect::SetCounter(1),
            StorageEffect::SetJob(job),
            StorageEffect::ExtendLifetime { key: DataKey::Job(1), min: 17280, max: 34560 },
        ]
    );
    assert!(contract.take_effects().is_empty());
}

#[test]
fn posting_with_deadlines_out_of_order_is_refused_and_allocates_nothing() {
    let mut contract = FreelanceContract::new();
    for (soft, hard) in [(200, 100), (100, 100), (u64::MAX, 0)] {
        assert_eq!(
            contract.post_job(client(), client(), token(), 1000, soft, hard, 10),
            Err(EscrowError::InvalidTerms(Term::Deadlines))
        );
    }
    assert_eq!(contract.counter(), 0);
    assert_eq!(contract.get(1), Err(EscrowError::NotFound(1)));
    assert!(contract.take_effects().is_empty());
    assert_eq!(contract.post_job(client(), client(), token(), 1000, 100, 200, 10), Ok(1));
}

#[test]
fn posting_with_a_non_positive_amount_is_refused_and_allocates_nothing() {
    let mut contract = FreelanceContract::new();
    for amount in [0, -1, i128::MIN] {
        assert_eq!(
            contract.post_job(client(), client(), token(), amount, 100, 200, 10),
            Err(EscrowError::InvalidTerms(Term::Amount))
        );
    }
    assert_eq!(contract.counter(), 0);
    assert!(contract.take_effects().is_empty());
}

#[test]
fn posting_for_another_account_is_unauthorized() {
    let mut contract = FreelanceContract::new();
    assert_eq!(
        contract.post_job(stranger(), client(), token(), 1000, 100, 200, 10),
        Err(EscrowError::Unauthorized(client()))
    );
    assert_eq!(contract.counter(), 0);
    assert!(contract.take_effects().is_empty());
}

#[test]
fn posting_accepts_the_smallest_valid_terms() {
    let mut contract = FreelanceContract::new();
    assert_eq!(contract.post_job(client(), client(), token(), 1, 0, 1, 0), Ok(1));
}

#[test]
fn identifiers_run_from_one_without_gaps_or_repeats() {
    let mut contract = FreelanceContract::new();
    for expected in 1..=50u64 {
        assert_eq!(
            contract.post_job(client(), client(), token(), 1000, 100, 200, 10),
            Ok(expected)
        );
        assert_eq!(contract.get(expected).unwrap().id, expected);
    }
    assert_eq!(contract.counter(), 50);
    assert_eq!(contract.get(51), Err(EscrowError::NotFound(51)));
    assert_eq!(contract.get(0), Err(EscrowError::NotFound(0)));
}

#[test]
fn refused_postings_and_other_operations_use_up_no_identifier() {
    let mut contract = FreelanceContract::new();
    assert_eq!(contract.post_job(client(), client(), token(), 1000, 100, 200, 10), Ok(1));
    assert!(contract.post_job(client(), client(), token(), 0, 100, 200, 10).is_err());
    assert!(contract.post_job(stranger(), client(), token(), 1000, 100, 200, 10).is_err());
    contract.assign_freelancer(client(), 1, worker(), 1000, 100, 200, 10).unwrap();
    contract.accept_job(worker(), 1).unwrap();
    assert_eq!(contract.post_job(worker(), worker(), token(), 5, 1, 2, 0), Ok(2));
    contract.fund(client(), 1, OK).unwrap();
    contract.complete_job(client(), 1, 0, OK).unwrap();
    assert_eq!(contract.post_job(client(), client(), token(), 1000, 100, 200, 10), Ok(3));
    assert_eq!(contract.counter(), 3);
}

#[test]
fn posting_on_an_exhausted_counter_is_an_overflow() {
    let mut contract = FreelanceContract::restore(Some(u64::MAX));
    assert_eq!(
        contract.post_job(client(), client(), token(), 1000, 100, 200, 10),
        Err(EscrowError::Overflow(Quantity::JobCounter))
    );
    assert_eq!(contract.counter(), u64::MAX);
    assert!(contract.take_effects().is_empty());
}

#[test]
fn invalid_terms_are_reported_before_an_exhausted_counter() {
    let mut contract = FreelanceContract::restore(Some(u64::MAX));
    assert_eq!(
        contract.post_job(client(), client(), token(), 0, 100, 200, 10),
        Err(EscrowError::InvalidTerms(Term::Amount))
    );
}

#[test]
fn a_job_walks_the_whole_life_cycle_forward() {
    let mut contract = FreelanceContract::new();
    let mut codes = vec![];
    contract.post_job(client(), client(), token(), 1000, 100, 200, 10).unwrap();
    codes.push(contract.get(1).unwrap().state.code());
    contract.update_job(client(), 1, 2000, 110, 210, 20).unwrap();
    codes.push(contract.get(1).unwrap().state.code());
    contract.assign_freelancer(client(), 1, worker(), 1000, 100, 200, 10).unwrap();
    codes.push(contract.get(1).unwrap().state.code());
    contract.accept_job(worker(), 1).unwrap();
    codes.push(contract.get(1).unwrap().state.code());
    contract.fund(client(), 1, OK).unwrap();
    codes.push(contract.get(1).unwrap().state.code());
    contract.complete_job(client(), 1, 150, OK).unwrap();
    codes.push(contract.get(1).unwrap().state.code());
    assert_eq!(codes, vec![0, 0, 1, 2, 3, 4]);
}

#[test]
fn no_operation_moves_a_job_backward() {
    for state in ALL_STATES {
        for caller in [client(), worker(), stranger()] {
            for outcome in [OK, FAILED] {
                let attempts: [fn(&mut FreelanceContract, AccountId, TransferOutcome); 6] = [
                    |c, who, _| {
                        let _ = c.assign_freelancer(who, 1, worker(), 1000, 100, 200, 10);
                    },
                    |c, who, _| {
                        let _ = c.accept_job(who, 1);
                    },
                    |c, who, _| {
                        let _ = c.update_job(who, 1, 1000, 100, 200, 10);
                    },
                    |c, who, how| {
                        let _ = c.fund(who, 1, how);
                    },
                    |c, who, how| {
                        let _ = c.complete_job(who, 1, 150, how);
                    },
                    |c, who, how| {
                        let _ = c.cancel_job(who, 1, how);
                    },
                ];
                for attempt in attempts {
                    let mut contract = contract_with_job_in(state);
                    attempt(&mut contract, caller, outcome);
                    let after = contract.get(1).unwrap();
                    assert!(after.state.code() >= state.code());
                    assert_eq!(after.id, 1);
                    assert_eq!(after.client, client());
                    assert_eq!(after.token, token());
                }
            }
        }
    }
}

#[test]
fn update_succeeds_only_while_the_job_is_open() {
    for state in ALL_STATES {
        let mut contract = contract_with_job_in(state);
        let before = contract.get(1).unwrap();
        contract.take_effects();
        let reply = contract.update_job(client(), 1, 2000, 110, 210, 20);
        if state == JobState::Open {
            assert_eq!(reply, Ok(()));
            assert_eq!(
                contract.get(1),
                Ok(Job {
                    amount: 2000,
                    soft_deadline: 110,
                    hard_deadline: 210,
                    penalty_per_sec: 20,
                    ..before
                })
            );
        } else {
            assert_eq!(reply, Err(EscrowError::InvalidState(1)));
            assert_eq!(contract.get(1), Ok(before));
            assert!(contract.take_effects().is_empty());
        }
    }
}

#[test]
fn update_validates_terms_as_posting_does() {
    let mut contract = contract_with_job_in(JobState::Open);
    let before = contract.get(1).unwrap();
    assert_eq!(
        contract.update_job(client(), 1, 2000, 210, 210, 20),
        Err(EscrowError::InvalidTerms(Term::Deadlines))
    );
    assert_eq!(
        contract.update_job(client(), 1, 0, 110, 210, 20),
        Err(EscrowError::InvalidTerms(Term::Amount))
    );
    assert_eq!(contract.get(1), Ok(before));
}

#[test]
fn update_by_another_account_is_unauthorized() {
    let mut contract = contract_with_job_in(JobState::Open);
    assert_eq!(
        contract.update_job(worker(), 1, 2000, 110, 210, 20),
        Err(EscrowError::Unauthorized(client()))
    );
}

#[test]
fn accepting_an_open_job_is_an_invalid_state() {
    let mut contract = contract_with_job_in(JobState::Open);
    let before = contract.get(1).unwrap();
    assert_eq!(contract.accept_job(worker(), 1), Err(EscrowError::InvalidState(1)));
    assert_eq!(contract.accept_job(client(), 1), Err(EscrowError::InvalidState(1)));
    assert_eq!(contract.get(1), Ok(before));
}

#[test]
fn accepting_twice_is_an_invalid_state() {
    let mut contract = contract_with_job_in(JobState::Accepted);
    assert_eq!(contract.accept_job(worker(), 1), Err(EscrowError::InvalidState(1)));
}

#[test]
fn accepting_by_another_account_is_unauthorized() {
    let mut contract = contract_with_job_in(JobState::Assigned);
    assert_eq!(contract.accept_job(client(), 1), Err(EscrowError::Unauthorized(worker())));
    assert_eq!(contract.get(1).unwrap().state, JobState::Assigned);
}

#[test]
fn assigning_by_another_account_is_unauthorized_and_changes_nothing() {
    let mut contract = contract_with_job_in(JobState::Open);
    let before = contract.get(1).unwrap();
    contract.take_effects();
    assert_eq!(
        contract.assign_freelancer(stranger(), 1, worker(), 500, 10, 20, 1),
        Err(EscrowError::Unauthorized(client()))
    );
    assert_eq!(
        contract.assign_freelancer(worker(), 1, worker(), 500, 10, 20, 1),
        Err(EscrowError::Unauthorized(client()))
    );
    assert_eq!(contract.get(1), Ok(before));
    assert_eq!(contract.counter(), 1);
    assert!(contract.take_effects().is_empty());
}

#[test]
fn assigning_overwrites_the_terms_and_journals_the_record() {
    let mut contract = contract_with_job_in(JobState::Open);
    contract.take_effects();
    assert_eq!(contract.assign_freelancer(client(), 1, worker(), 500, 10, 20, 1), Ok(()));
    let job = contract.get(1).unwrap();
    assert_eq!(
        job,
        Job {
            id: 1,
            client: client(),
            freelancer: Some(worker()),
            token: token(),
            amount: 500,
            soft_deadline: 10,
            hard_deadline: 20,
            penalty_per_sec: 1,
            state: JobState::Assigned,
        }
    );
    assert_eq!(
        contract.take_effects(),
        vec![
            StorageEffect::SetJob(job),
            StorageEffect::ExtendLifetime { key: DataKey::Job(1), min: 17280, max: 34560 },
        ]
    );
}

#[test]
fn assigning_with_invalid_terms_is_refused() {
    let mut contract = contract_with_job_in(JobState::Open);
    assert_eq!(
        contract.assign_freelancer(client(), 1, worker(), 500, 20, 20, 1),
        Err(EscrowError::InvalidTerms(Term::Deadlines))
    );
    assert_eq!(
        contract.assign_freelancer(client(), 1, worker(), 0, 10, 20, 1),
        Err(EscrowError::InvalidTerms(Term::Amount))
    );
    assert_eq!(contract.get(1).unwrap().state, JobState::Open);
}

#[test]
fn assigning_twice_is_an_invalid_state() {
    let mut contract = contract_with_job_in(JobState::Assigned);
    assert_eq!(
        contract.assign_freelancer(client(), 1, stranger(), 500, 10, 20, 1),
        Err(EscrowError::InvalidState(1))
    );
    assert_eq!(contract.get(1).unwrap().freelancer, Some(worker()));
}

#[test]
fn every_operation_on_an_unknown_job_reports_not_found() {
    let mut contract = contract_with_job_in(JobState::Open);
    let missing = Err(EscrowError::NotFound(2));
    assert_eq!(contract.assign_freelancer(client(), 2, worker(), 500, 10, 20, 1), missing);
    assert_eq!(contract.accept_job(worker(), 2), missing);
    assert_eq!(contract.update_job(client(), 2, 500, 10, 20, 1), missing);
    assert_eq!(contract.fund(client(), 2, OK), missing);
    assert_eq!(contract.cancel_job(client(), 2, OK), missing);
    assert_eq!(contract.complete_job(client(), 2, 150, OK), Err(EscrowError::NotFound(2)));
    assert_eq!(contract.funding_plan(client(), 2), Err(EscrowError::NotFound(2)));
    assert_eq!(contract.settlement_plan(client(), 2, 150), Err(EscrowError::NotFound(2)));
    assert_eq!(contract.cancellation_plan(client(), 2), Err(EscrowError::NotFound(2)));
    assert_eq!(contract.authority(Action::Fund, 2), Err(EscrowError::NotFound(2)));
    assert_eq!(contract.get(2), Err(EscrowError::NotFound(2)));
    assert_eq!(contract.get(0), Err(EscrowError::NotFound(0)));
}

#[test]
fn funding_moves_the_price_into_custody_and_then_marks_the_job() {
    let mut contract = contract_with_job_in(JobState::Accepted);
    assert_eq!(
        contract.funding_plan(client(), 1),
        Ok(vec![Transfer {
            token: token(),
            from: Party::Account(client()),
            to: Party::Custody,
            amount: 1000,
        }])
    );
    assert_eq!(contract.get(1).unwrap().state, JobState::Accepted);
    assert_eq!(contract.fund(client(), 1, OK), Ok(()));
    assert_eq!(contract.get(1).unwrap().state, JobState::Funded);
}

#[test]
fn a_failed_funding_transfer_changes_nothing() {
    let mut contract = contract_with_job_in(JobState::Accepted);
    let before = contract.get(1).unwrap();
    contract.take_effects();
    assert_eq!(contract.fund(client(), 1, FAILED), Err(EscrowError::TransferFailed(1)));
    assert_eq!(contract.get(1), Ok(before));
    assert!(contract.take_effects().is_empty());
    assert_eq!(contract.fund(client(), 1, OK), Ok(()));
}

#[test]
fn funding_needs_an_accepted_job() {
    for state in ALL_STATES {
        if state == JobState::Accepted {
            continue;
        }
        let mut contract = contract_with_job_in(state);
        assert_eq!(contract.funding_plan(client(), 1), Err(EscrowError::InvalidState(1)));
        assert_eq!(contract.fund(client(), 1, OK), Err(EscrowError::InvalidState(1)));
        assert_eq!(contract.get(1).unwrap().state, state);
    }
}

#[test]
fn funding_by_another_account_is_unauthorized() {
    let mut contract = contract_with_job_in(JobState::Accepted);
    assert_eq!(contract.funding_plan(worker(), 1), Err(EscrowError::Unauthorized(client())));
    assert_eq!(contract.fund(worker(), 1, OK), Err(EscrowError::Unauthorized(client())));
}

#[test]
fn completing_halfway_between_the_deadlines_splits_the_price() {
    let mut contract = contract_with_job_in(JobState::Funded);
    assert_eq!(
        contract.settlement_plan(client(), 1, 150),
        Ok(vec![
            Transfer {
                token: token(),
                from: Party::Custody,
                to: Party::Account(worker()),
                amount: 500,
            },
            Transfer {
                token: token(),
                from: Party::Custody,
                to: Party::Account(client()),
                amount: 500,
            },
        ])
    );
    assert_eq!(
        contract.complete_job(client(), 1, 150, OK),
        Ok(Settlement { payout: 500, refund: 500 })
    );
    assert_eq!(contract.get(1).unwrap().state, JobState::Completed);
}

#[test]
fn completing_with_a_steep_penalty_refunds_everything() {
    let mut contract = FreelanceContract::new();
    contract.post_job(client(), client(), token(), 1000, 100, 200, 50).unwrap();
    contract.assign_freelancer(client(), 1, worker(), 1000, 100, 200, 50).unwrap();
    contract.accept_job(worker(), 1).unwrap();
    contract.fund(client(), 1, OK).unwrap();
    assert_eq!(
        contract.settlement_plan(client(), 1, 150),
        Ok(vec![Transfer {
            token: token(),
            from: Party::Custody,
            to: Party::Account(client()),
            amount: 1000,
        }])
    );
    assert_eq!(
        contract.complete_job(client(), 1, 150, OK),
        Ok(Settlement { payout: 0, refund: 1000 })
    );
}

#[test]
fn completing_at_the_deadlines() {
    let mut on_time = contract_with_job_in(JobState::Funded);
    assert_eq!(
        on_time.complete_job(client(), 1, 100, OK),
        Ok(Settlement { payout: 1000, refund: 0 })
    );
    let mut too_late = contract_with_job_in(JobState::Funded);
    assert_eq!(
        too_late.complete_job(client(), 1, 200, OK),
        Ok(Settlement { payout: 0, refund: 1000 })
    );
    let mut last_second = contract_with_job_in(JobState::Funded);
    assert_eq!(
        last_second.complete_job(client(), 1, 199, OK),
        Ok(Settlement { payout: 10, refund: 990 })
    );
}

#[test]
fn completing_journals_the_completed_record() {
    let mut contract = contract_with_job_in(JobState::Funded);
    contract.take_effects();
    contract.complete_job(client(), 1, 150, OK).unwrap();
    let job = contract.get(1).unwrap();
    assert_eq!(job.state, JobState::Completed);
    assert_eq!(
        contract.take_effects(),
        vec![
            StorageEffect::SetJob(job),
            StorageEffect::ExtendLifetime { key: DataKey::Job(1), min: 17280, max: 34560 },
        ]
    );
}

#[test]
fn a_failed_completion_leaves_the_job_funded_and_can_be_retried() {
    let mut contract = contract_with_job_in(JobState::Funded);
    let before = contract.get(1).unwrap();
    contract.take_effects();
    let plan = contract.settlement_plan(client(), 1, 150).unwrap();
    assert_eq!(
        contract.complete_job(client(), 1, 150, FAILED),
        Err(EscrowError::TransferFailed(1))
    );
    assert_eq!(contract.get(1), Ok(before));
    assert!(contract.take_effects().is_empty());
    assert_eq!(contract.settlement_plan(client(), 1, 150), Ok(plan));
    assert_eq!(
        contract.complete_job(client(), 1, 150, OK),
        Ok(Settlement { payout: 500, refund: 500 })
    );
    assert_eq!(contract.get(1).unwrap().state, JobState::Completed);
}

#[test]
fn a_retry_at_a_later_time_is_settled_by_that_time() {
    let mut contract = contract_with_job_in(JobState::Funded);
    assert!(contract.complete_job(client(), 1, 150, FAILED).is_err());
    assert_eq!(
        contract.complete_job(client(), 1, 160, OK),
        Ok(Settlement { payout: 400, refund: 600 })
    );
}

#[test]
fn a_completed_job_is_never_settled_again() {
    let mut contract = contract_with_job_in(JobState::Completed);
    let before = contract.get(1).unwrap();
    contract.take_effects();
    assert_eq!(contract.settlement_plan(client(), 1, 150), Err(EscrowError::InvalidState(1)));
    assert_eq!(contract.complete_job(client(), 1, 150, OK), Err(EscrowError::InvalidState(1)));
    assert_eq!(contract.cancellation_plan(client(), 1), Err(EscrowError::InvalidState(1)));
    assert_eq!(contract.cancel_job(client(), 1, OK), Err(EscrowError::InvalidState(1)));
    assert_eq!(contract.funding_plan(client(), 1), Err(EscrowError::InvalidState(1)));
    assert_eq!(contract.get(1), Ok(before));
    assert!(contract.take_effects().is_empty());
}

#[test]
fn completing_needs_a_funded_job() {
    for state in ALL_STATES {
        if state == JobState::Funded {
            continue;
        }
        let mut contract = contract_with_job_in(state);
        assert_eq!(contract.complete_job(client(), 1, 150, OK), Err(EscrowError::InvalidState(1)));
        assert_eq!(contract.get(1).unwrap().state, state);
    }
}

#[test]
fn completing_by_the_freelancer_is_unauthorized() {
    let mut contract = contract_with_job_in(JobState::Funded);
    assert_eq!(
        contract.complete_job(worker(), 1, 150, OK),
        Err(EscrowError::Unauthorized(client()))
    );
    assert_eq!(contract.settlement_plan(worker(), 1, 150), Err(EscrowError::Unauthorized(client())));
    assert_eq!(contract.get(1).unwrap().state, JobState::Funded);
}

#[test]
fn completing_with_a_penalty_beyond_the_integer_range_is_an_overflow() {
    let mut contract = FreelanceContract::new();
    contract.post_job(client(), client(), token(), 1000, 100, 200, i128::MAX).unwrap();
    contract.assign_freelancer(client(), 1, worker(), 1000, 100, 200, i128::MAX).unwrap();
    contract.accept_job(worker(), 1).unwrap();
    contract.fund(client(), 1, OK).unwrap();
    assert_eq!(
        contract.complete_job(client(), 1, 150, OK),
        Err(EscrowError::Overflow(Quantity::Penalty(1)))
    );
    assert_eq!(contract.get(1).unwrap().state, JobState::Funded);
    assert_eq!(
        contract.complete_job(client(), 1, 200, OK),
        Ok(Settlement { payout: 0, refund: 1000 })
    );
}

#[test]
fn cancelling_before_funding_needs_no_refund() {
    for state in [JobState::Open, JobState::Assigned, JobState::Accepted] {
        let mut contract = contract_with_job_in(state);
        assert_eq!(contract.cancellation_plan(client(), 1), Ok(vec![]));
        assert_eq!(contract.cancel_job(client(), 1, OK), Ok(()));
        assert_eq!(contract.get(1).unwrap().state, JobState::Failed);
    }
}

#[test]
fn cancelling_a_funded_job_refunds_in_full_first() {
    let mut contract = contract_with_job_in(JobState::Funded);
    assert_eq!(
        contract.cancellation_plan(client(), 1),
        Ok(vec![Transfer {
            token: token(),
            from: Party::Custody,
            to: Party::Account(client()),
            amount: 1000,
        }])
    );
    assert_eq!(contract.cancel_job(client(), 1, FAILED), Err(EscrowError::TransferFailed(1)));
    assert_eq!(contract.get(1).unwrap().state, JobState::Funded);
    assert_eq!(contract.cancel_job(client(), 1, OK), Ok(()));
    assert_eq!(contract.get(1).unwrap().state, JobState::Failed);
}

#[test]
fn a_failed_job_accepts_no_further_operation() {
    let mut contract = contract_with_job_in(JobState::Failed);
    let closed = Err(EscrowError::InvalidState(1));
    assert_eq!(contract.assign_freelancer(client(), 1, worker(), 500, 10, 20, 1), closed);
    assert_eq!(contract.accept_job(worker(), 1), closed);
    assert_eq!(contract.update_job(client(), 1, 500, 10, 20, 1), closed);
    assert_eq!(contract.fund(client(), 1, OK), closed);
    assert_eq!(contract.cancel_job(client(), 1, OK), closed);
    assert_eq!(contract.complete_job(client(), 1, 150, OK), Err(EscrowError::InvalidState(1)));
    assert_eq!(contract.get(1).unwrap().state, JobState::Failed);
}

#[test]
fn cancelling_by_another_account_is_unauthorized() {
    let mut contract = contract_with_job_in(JobState::Funded);
    assert_eq!(contract.cancel_job(worker(), 1, OK), Err(EscrowError::Unauthorized(client())));
    assert_eq!(contract.get(1).unwrap().state, JobState::Funded);
}

#[test]
fn authority_names_the_account_that_has_to_consent() {
    let contract = contract_with_job_in(JobState::Assigned);
    assert_eq!(contract.authority(Action::AcceptJob, 1), Ok(worker()));
    assert_eq!(contract.authority(Action::AssignFreelancer, 1), Ok(client()));
    assert_eq!(contract.authority(Action::UpdateJob, 1), Ok(client()));
    assert_eq!(contract.authority(Action::Fund, 1), Ok(client()));
    assert_eq!(contract.authority(Action::CompleteJob, 1), Ok(client()));
    assert_eq!(contract.authority(Action::CancelJob, 1), Ok(client()));
    let open = contract_with_job_in(JobState::Open);
    assert_eq!(open.authority(Action::AcceptJob, 1), Err(EscrowError::InvalidState(1)));
}

#[test]
fn jobs_are_independent_of_each_other() {
    let mut contract = FreelanceContract::new();
    contract.post_job(client(), client(), token(), 1000, 100, 200, 10).unwrap();
    contract.post_job(worker(), worker(), token(), 7, 1, 2, 3).unwrap();
    let second = contract.get(2).unwrap();
    contract.assign_freelancer(client(), 1, worker(), 1000, 100, 200, 10).unwrap();
    contract.accept_job(worker(), 1).unwrap();
    contract.fund(client(), 1, OK).unwrap();
    contract.complete_job(client(), 1, 150, OK).unwrap();
    assert_eq!(contract.get(2), Ok(second));
    assert_eq!(
        contract.update_job(client(), 2, 8, 1, 2, 3),
        Err(EscrowError::Unauthorized(worker()))
    );
}

#[test]
fn a_restored_contract_works_on_loaded_records() {
    let stored = contract_with_job_in(JobState::Accepted).get(1).unwrap();
    let mut contract = FreelanceContract::restore(Some(3));
    assert_eq!(contract.get(1), Err(EscrowError::NotFound(1)));
    assert!(contract.load(1, stored));
    assert_eq!(contract.get(1), Ok(stored));
    assert!(contract.take_effects().is_empty());
    assert_eq!(contract.fund(client(), 1, OK), Ok(()));
    let funded = contract.get(1).unwrap();
    assert_eq!(funded.state, JobState::Funded);
    assert_eq!(
        contract.take_effects(),
        vec![
            StorageEffect::SetJob(funded),
            StorageEffect::ExtendLifetime { key: DataKey::Job(1), min: 17280, max: 34560 },
        ]
    );
    assert_eq!(contract.post_job(client(), client(), token(), 1, 0, 1, 0), Ok(4));
}

#[test]
fn records_under_identifiers_that_were_never_allocated_are_not_loaded() {
    let stored = contract_with_job_in(JobState::Open).get(1).unwrap();
    let mut contract = FreelanceContract::restore(Some(3));
    assert!(!contract.load(0, stored));
    assert!(!contract.load(4, stored));
    assert!(!contract.load(u64::MAX, stored));
    assert_eq!(contract.get(0), Err(EscrowError::NotFound(0)));
    assert_eq!(contract.get(4), Err(EscrowError::NotFound(4)));
    assert!(contract.load(3, stored));
    assert_eq!(contract.get(3).unwrap().id, 3);
    let mut unused = FreelanceContract::restore(None);
    assert!(!unused.load(1, stored));
}

#[test]
fn a_new_contract_and_one_restored_from_nothing_agree() {
    let mut fresh = FreelanceContract::new();
    let mut restored = FreelanceContract::restore(None);
    assert_eq!(fresh.counter(), 0);
    assert_eq!(restored.counter(), 0);
    assert_eq!(
        fresh.post_job(client(), client(), token(), 1000, 100, 200, 10),
        restored.post_job(client(), client(), token(), 1000, 100, 200, 10)
    );
    assert_eq!(fresh.take_effects(), restored.take_effects());
}

#[test]
fn calls_on_different_jobs_can_come_in_either_order() {
    let mut one_way = FreelanceContract::new();
    let mut other_way = FreelanceContract::new();
    for contract in [&mut one_way, &mut other_way] {
        contract.post_job(client(), client(), token(), 1000, 100, 200, 10).unwrap();
        contract.post_job(worker(), worker(), token(), 7, 1, 2, 3).unwrap();
    }
    let first = one_way.assign_freelancer(client(), 1, worker(), 900, 10, 20, 1);
    let second = one_way.update_job(worker(), 2, 8, 2, 3, 4);
    let second_early = other_way.update_job(worker(), 2, 8, 2, 3, 4);
    let first_late = other_way.assign_freelancer(client(), 1, worker(), 900, 10, 20, 1);
    assert_eq!(first, first_late);
    assert_eq!(second, second_early);
    assert_eq!(one_way.get(1), other_way.get(1));
    assert_eq!(one_way.get(2), other_way.get(2));
    assert_eq!(one_way.counter(), other_way.counter());
}

#[test]
fn a_second_call_on_the_same_job_sees_the_first() {
    let mut contract = contract_with_job_in(JobState::Accepted);
    assert_eq!(contract.fund(client(), 1, OK), Ok(()));
    assert_eq!(contract.fund(client(), 1, OK), Err(EscrowError::InvalidState(1)));
    assert_eq!(contract.complete_job(client(), 1, 150, OK).map(|s| s.payout), Ok(500));
    assert_eq!(contract.complete_job(client(), 1, 150, OK), Err(EscrowError::InvalidState(1)));
}

/// What a plan adds to custody when it is carried out.
fn inflow(plan: &[Transfer]) -> i128 {
    let mut sum = 0;
    for transfer in plan {
        if transfer.to == Party::Custody {
            sum += transfer.amount;
        }
        if transfer.from == Party::Custody {
            sum -= transfer.amount;
        }
    }
    sum
}

#[test]
fn custody_holds_the_price_exactly_while_the_job_is_funded() {
    for now in [0, 100, 101, 150, 199, 200, 500] {
        let mut contract = contract_with_job_in(JobState::Accepted);
        let mut custody: i128 = 0;
        custody += inflow(&contract.funding_plan(client(), 1).unwrap());
        contract.fund(client(), 1, OK).unwrap();
        assert_eq!(custody, 1000);
        let plan = contract.settlement_plan(client(), 1, now).unwrap();
        assert!(plan.iter().all(|t| t.amount > 0 && t.from == Party::Custody));
        custody += inflow(&plan);
        contract.complete_job(client(), 1, now, OK).unwrap();
        assert_eq!(custody, 0);
    }
}

#[test]
fn custody_is_emptied_by_the_cancellation_of_a_funded_job() {
    let mut contract = contract_with_job_in(JobState::Funded);
    let mut custody: i128 = 1000;
    custody += inflow(&contract.cancellation_plan(client(), 1).unwrap());
    contract.cancel_job(client(), 1, OK).unwrap();
    assert_eq!(custody, 0);
}
