//! Movements of value between the parties and the escrow.

use vstd::prelude::*;
use crate::account::AccountId;
use crate::error::EscrowError;

verus! {

/// One end of a transfer.
#[derive(Clone, Copy, Debug, PartialEq, Eq, Structural)]
pub enum Party {
    /// The engine's own custody, where escrowed value is held.
    Custody,
    /// An outside account.
    Account(AccountId),
}

/// An instruction to move `amount` units of the asset `token` from one party
/// to another. The engine issues transfers; its caller carries them out.
#[derive(Clone, Copy, Debug, PartialEq, Eq, Structural)]
pub struct Transfer {
    pub token: AccountId,
    pub from: Party,
    pub to: Party,
    pub amount: i128,
}

/// How the transfers that an operation asked for went, as reported by the
/// caller who carried them out.
#[derive(Clone, Copy, Debug, PartialEq, Eq, Structural)]
pub enum TransferOutcome {
    /// Every transfer went through.
    Succeeded,
    /// At least one transfer did not go through, and none has taken effect.
    Failed,
}

/// A plan of transfers: the transfers to make, in order, or the reason for
/// which none is issued.
pub type Plan = Result<Vec<Transfer>, EscrowError>;

/// A plan as a mathematical value.
pub open spec fn plan_view(plan: Plan) -> Result<Seq<Transfer>, EscrowError> {
    match plan {
        Ok(list) => Ok(list@),
        Err(e) => Err(e),
    }
}

} // verus!
