//! Names of stored entries, and the writes that an operation asks for.

use vstd::prelude::*;
use crate::job::Job;

verus! {

/// A record is kept alive for at least this many ledgers after it is written.
pub const MIN_RETENTION: u32 = 17280;

/// Extending a record's life never reaches further than this many ledgers.
pub const MAX_RETENTION: u32 = 34560;

/// The name of an entry in durable storage.
#[derive(Clone, Copy, Debug, PartialEq, Eq, Structural)]
pub enum DataKey {
    /// The record of the job with this identifier.
    Job(u64),
    /// The counter that holds the last allocated job identifier.
    JobCounter,
}

/// A write to durable storage that a successful operation asks for.
#[derive(Clone, Copy, Debug, PartialEq, Eq)]
pub enum StorageEffect {
    /// Store this value under `DataKey::JobCounter`.
    SetCounter(u64),
    /// Store this record under `DataKey::Job` of its identifier.
    SetJob(Job),
    /// Keep the entry under `key` alive for at least `min` ledgers, without
    /// reaching further than `max`.
    ExtendLifetime { key: DataKey, min: u32, max: u32 },
}

impl StorageEffect {
    /// The entry that this effect writes to.
    pub open spec fn spec_key(&self) -> DataKey {
        match *self {
            StorageEffect::SetCounter(_) => DataKey::JobCounter,
            StorageEffect::SetJob(job) => DataKey::Job(job.id),
            StorageEffect::ExtendLifetime { key, .. } => key,
        }
    }

    /// The entry that this effect writes to.
    #[verifier::when_used_as_spec(spec_key)]
    pub fn key(&self) -> (k: DataKey)
        ensures
            k == self.spec_key(),
    {
        match self {
            StorageEffect::SetCounter(_) => DataKey::JobCounter,
            StorageEffect::SetJob(job) => DataKey::Job(job.id),
            StorageEffect::ExtendLifetime { key, .. } => *key,
        }
    }
}

} // verus!
