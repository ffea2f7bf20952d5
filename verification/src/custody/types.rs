//! Plain records of the ledger, as a client sees them.

use vstd::prelude::*;

verus! {

/// A user with the tokens held for it, each written as the account of the
/// token contract, a colon and the token id.
#[derive(Debug, Clone, PartialEq, Eq)]
pub struct JsonTokens {
    pub owner_id: String,
    pub tokens: Vec<String>,
}

} // verus!
