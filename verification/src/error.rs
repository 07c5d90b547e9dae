//! The ways in which an operation can fail.

use vstd::prelude::*;
use crate::account::AccountId;

verus! {

/// The part of a job's terms that was found invalid.
#[derive(Clone, Copy, Debug, PartialEq, Eq, Structural)]
pub enum Term {
    /// The hard deadline is not after the soft deadline.
    Deadlines,
    /// The amount is not positive.
    Amount,
}

/// The quantity whose computation left the range of its integer type.
#[derive(Clone, Copy, Debug, PartialEq, Eq, Structural)]
pub enum Quantity {
    /// The counter of allocated job identifiers.
    JobCounter,
    /// The lateness penalty of the job with this identifier.
    Penalty(u64),
}

/// Why an operation was refused. A refused operation changes nothing.
#[derive(Clone, Copy, Debug, PartialEq, Eq, Structural)]
pub enum EscrowError {
    /// The proposed terms are not acceptable.
    InvalidTerms(Term),
    /// The caller is not the account whose consent the operation needs; the
    /// needed account is given.
    Unauthorized(AccountId),
    /// No record exists for this job identifier.
    NotFound(u64),
    /// The job with this identifier is in a state that does not permit the
    /// operation.
    InvalidState(u64),
    /// A transfer of value for the job with this identifier did not go through.
    TransferFailed(u64),
    /// A computation would have left the range of its integer type.
    Overflow(Quantity),
}

} // verus!
