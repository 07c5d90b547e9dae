//! The job registry: the counter of allocated identifiers, the records, and
//! the journal of writes that durable storage still has to receive.
//!
//! The registry works on the records that were loaded into it. Whoever runs
//! the engine over durable storage restores the counter, loads the records
//! that an operation needs, runs the operation, and then carries out the
//! journal. A refused operation leaves the journal as it was, so nothing of
//! it reaches storage.

use vstd::prelude::*;
use std::collections::HashMap;
use crate::error::{EscrowError, Quantity};
use crate::job::Job;
use crate::storage::{DataKey, StorageEffect, MAX_RETENTION, MIN_RETENTION};

verus! {

/// What a registry holds, as a mathematical value.
#[verifier::ext_equal]
pub struct RegistryState {
    /// The last identifier that was allocated; zero before the first.
    pub counter: u64,
    /// The records, by identifier.
    pub jobs: Map<u64, Job>,
    /// The writes that durable storage has not received yet, oldest first.
    pub journal: Seq<StorageEffect>,
}

impl RegistryState {
    /// A registry that has never been used.
    pub open spec fn fresh() -> RegistryState {
        RegistryState { counter: 0, jobs: Map::empty(), journal: Seq::empty() }
    }

    /// A registry that continues from a stored counter; a counter that was
    /// never stored counts as zero. No record is loaded yet.
    pub open spec fn restored(counter: Option<u64>) -> RegistryState {
        RegistryState {
            counter: match counter {
                Some(c) => c,
                None => 0,
            },
            jobs: Map::empty(),
            journal: Seq::empty(),
        }
    }

    /// Every record sits under its own identifier, and that identifier has
    /// been allocated: it is at least one and at most the counter.
    pub open spec fn consistent(self) -> bool {
        forall|id: u64| #[trigger]
            self.jobs.contains_key(id) ==> 1 <= id <= self.counter && self.jobs[id].id == id
    }

    /// Every record has valid terms, and a freelancer once it has been
    /// assigned.
    pub open spec fn all_well_formed(self) -> bool {
        forall|id: u64| #[trigger] self.jobs.contains_key(id) ==> self.jobs[id].well_formed()
    }

    /// Every record of `self` is still there in `later`, with the same
    /// identifier, client and asset, and in the same state or in one that the
    /// life cycle lets follow directly.
    pub open spec fn advances_to(self, later: RegistryState) -> bool {
        forall|id: u64| #[trigger]
            self.jobs.contains_key(id) ==> {
                let old_job = self.jobs[id];
                let new_job = later.jobs[id];
                &&& later.jobs.contains_key(id)
                &&& new_job.id == old_job.id
                &&& new_job.client == old_job.client
                &&& new_job.token == old_job.token
                &&& new_job.state == old_job.state || old_job.state.may_become(new_job.state)
            }
    }

    /// The identifier that the next allocation yields, unless the counter is
    /// exhausted.
    pub open spec fn next_id(self) -> Option<u64> {
        if self.counter == u64::MAX {
            None
        } else {
            Some((self.counter + 1) as u64)
        }
    }

    /// The registry after `id` was allocated: the counter is `id`, and the
    /// journal ends with the write of the counter.
    pub open spec fn with_counter(self, id: u64) -> RegistryState {
        RegistryState {
            counter: id,
            journal: self.journal.push(StorageEffect::SetCounter(id)),
            ..self
        }
    }

    /// The record as it is stored under `id`: `job` with that identifier.
    pub open spec fn stored(id: u64, job: Job) -> Job {
        Job { id, ..job }
    }

    /// The registry after `job` was put under `id`: the record is there, and
    /// the journal ends with its write and the extension of its lifetime.
    pub open spec fn with_record(self, id: u64, job: Job) -> RegistryState {
        RegistryState {
            jobs: self.jobs.insert(id, Self::stored(id, job)),
            journal: self.journal.push(StorageEffect::SetJob(Self::stored(id, job))).push(
                StorageEffect::ExtendLifetime {
                    key: DataKey::Job(id),
                    min: MIN_RETENTION,
                    max: MAX_RETENTION,
                },
            ),
            ..self
        }
    }

    /// The registry after `job` was loaded from storage under `id`: the
    /// record is there, and the journal is as before.
    pub open spec fn with_loaded(self, id: u64, job: Job) -> RegistryState {
        RegistryState { jobs: self.jobs.insert(id, Self::stored(id, job)), ..self }
    }

    /// The record under `id`, or `NotFound`.
    pub open spec fn record(self, id: u64) -> Result<Job, EscrowError> {
        if self.jobs.contains_key(id) {
            Ok(self.jobs[id])
        } else {
            Err(EscrowError::NotFound(id))
        }
    }

    /// The registry after its journal was handed out.
    pub open spec fn flushed(self) -> RegistryState {
        RegistryState { journal: Seq::empty(), ..self }
    }
}

/// The counter of allocated identifiers, the records that were loaded or
/// written, and the journal of writes.
pub struct JobRegistry {
    counter: u64,
    records: HashMap<u64, Job>,
    journal: Vec<StorageEffect>,
}

impl View for JobRegistry {
    type V = RegistryState;

    closed spec fn view(&self) -> RegistryState {
        RegistryState { counter: self.counter, jobs: self.records@, journal: self.journal@ }
    }
}

impl JobRegistry {
    /// Makes a registry that has never been used.
    pub fn new() -> (registry: JobRegistry)
        ensures
            registry@ == RegistryState::fresh(),
    {
        JobRegistry { counter: 0, records: HashMap::new(), journal: Vec::new() }
    }

    /// Makes a registry that continues from a stored counter, with no record
    /// loaded.
    pub fn restore(counter: Option<u64>) -> (registry: JobRegistry)
        ensures
            registry@ == RegistryState::restored(counter),
    {
        let counter: u64 = match counter {
            Some(c) => c,
            None => 0,
        };
        JobRegistry { counter, records: HashMap::new(), journal: Vec::new() }
    }

    /// Takes in a record that durable storage holds under `id`. Nothing is
    /// journalled: storage has the record already.
    pub fn load(&mut self, id: u64, job: Job)
        ensures
            final(self)@ == old(self)@.with_loaded(id, job),
    {
        self.records.insert(id, Job { id, ..job });
    }

    /// The last identifier that was allocated.
    pub fn counter(&self) -> (c: u64)
        ensures
            c == self@.counter,
    {
        self.counter
    }

    /// Allocates the next job identifier: one more than the last.
    ///
    /// Fails, and changes nothing, only when the counter is exhausted.
    pub fn allocate_id(&mut self) -> (id: Result<u64, EscrowError>)
        ensures
            (match old(self)@.next_id() {
                Some(next) => id == Ok::<u64, EscrowError>(next) && final(self)@ == old(
                    self,
                )@.with_counter(next),
                None => id == Err::<u64, EscrowError>(EscrowError::Overflow(Quantity::JobCounter))
                    && final(self)@ == old(self)@,
            }),
    {
        if self.counter == u64::MAX {
            return Err(EscrowError::Overflow(Quantity::JobCounter));
        }
        let next: u64 = self.counter + 1;
        self.counter = next;
        self.journal.push(StorageEffect::SetCounter(next));
        Ok(next)
    }

    /// Writes `job` as the record of `id`, replacing what was there, and asks
    /// for the record to be kept alive.
    pub fn put(&mut self, id: u64, job: Job)
        ensures
            final(self)@ == old(self)@.with_record(id, job),
    {
        let record = Job { id, ..job };
        self.records.insert(id, record);
        self.journal.push(StorageEffect::SetJob(record));
        self.journal.push(
            StorageEffect::ExtendLifetime {
                key: DataKey::Job(id),
                min: MIN_RETENTION,
                max: MAX_RETENTION,
            },
        );
    }

    /// Reads the record of `id`.
    pub fn get(&self, id: u64) -> (job: Result<Job, EscrowError>)
        ensures
            job == self@.record(id),
    {
        match self.records.get(&id) {
            Some(job) => Ok(*job),
            None => Err(EscrowError::NotFound(id)),
        }
    }

    /// Hands out the journal and starts an empty one.
    pub fn take_effects(&mut self) -> (effects: Vec<StorageEffect>)
        ensures
            effects@ == old(self)@.journal,
            final(self)@ == old(self)@.flushed(),
    {
        let mut effects: Vec<StorageEffect> = Vec::new();
        std::mem::swap(&mut effects, &mut self.journal);
        effects
    }
}

} // verus!
