//! Account identifiers.

use vstd::prelude::*;

verus! {

/// What an account identifier names.
#[derive(Clone, Copy, Debug, PartialEq, Eq, Structural)]
pub enum AccountKind {
    /// An account that is controlled by a key holder.
    Account,
    /// A contract.
    Contract,
}

/// The identifier of a party or of an asset: a kind and a 256-bit key, held
/// as two 128-bit words with the more significant word in `hi`.
///
/// The engine never looks inside an identifier. It only asks whether two of
/// them are the same.
#[derive(Clone, Copy, Debug, PartialEq, Eq, Structural)]
pub struct AccountId {
    pub kind: AccountKind,
    pub hi: u128,
    pub lo: u128,
}

} // verus!
