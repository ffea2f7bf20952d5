//! Plain records of the registry, as a client sees them.

use vstd::prelude::*;

verus! {

/// A project with the accounts of its token contracts.
#[derive(Debug, Clone, PartialEq, Eq)]
pub struct JsonProject {
    pub project_id: String,
    pub tokens_account_ids: Vec<String>,
}

/// A municipality with the ids of its projects.
#[derive(Debug, Clone, PartialEq, Eq)]
pub struct JsonMunicipality {
    pub municipality_id: String,
    pub projects: Vec<String>,
}

} // verus!
