//! An escrow-backed job-contracting engine.
//!
//! A client posts a job, negotiates its terms with a freelancer, and locks the
//! agreed price in escrow. On completion the price is split between the two
//! parties by a deadline-based penalty rule. Every operation is a guarded
//! transition of one job record; value is moved by the caller, who is told
//! which transfers to make and reports back how they went.
//!
//! - `account`, `state`, `error`, `storage`, `transfer`: the plain values that
//!   the engine speaks in.
//! - `payout`: the penalty rule.
//! - `job`: the record of a job and its guarded transitions.
//! - `registry`: the identifier counter, the records, and the journal of
//!   writes for durable storage.
//! - `contract`: the engine itself.
//! - `model`: what each operation does, as mathematics.
//! - `laws`: what holds of the engine as a whole.

pub mod account;
pub mod contract;
pub mod error;
pub mod job;
pub mod laws;
pub mod model;
pub mod payout;
pub mod registry;
pub mod state;
pub mod storage;
pub mod transfer;

pub use crate::account::{AccountId, AccountKind};
pub use crate::contract::FreelanceContract;
pub use crate::error::{EscrowError, Quantity, Term};
pub use crate::job::{Action, Job};
pub use crate::payout::Settlement;
pub use crate::registry::JobRegistry;
pub use crate::state::JobState;
pub use crate::storage::{DataKey, StorageEffect, MAX_RETENTION, MIN_RETENTION};
pub use crate::transfer::{Party, Plan, Transfer, TransferOutcome};
