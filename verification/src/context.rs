//! What a handler is told about the call it serves.

use vstd::prelude::*;

verus! {

/// The facts about a call that the host supplies.
#[derive(Debug, Clone, PartialEq, Eq)]
pub struct Context {
    /// The account that made this call.
    pub predecessor_account_id: String,
    /// The account that signed the transaction this call belongs to.
    pub signer_account_id: String,
    /// The account of the contract itself.
    pub current_account_id: String,
    /// The value attached to the call.
    pub attached_deposit: u128,
}

/// How a remote call chain ended.
#[derive(Debug, Clone, Copy, PartialEq, Eq, Structural)]
pub enum PromiseOutcome {
    Successful,
    Failed,
}

} // verus!
