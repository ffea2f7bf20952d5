//! What the factory shows to readers.

use vstd::prelude::*;
use crate::error::Error;
use crate::factory::tokens::{copy_bytes, deployment_cost, storage_cost};
use crate::factory::Contract;
use crate::string_set::{page_of, views_of};

verus! {

impl Contract {
    /// A page of the token contracts of a project; empty for an unknown project.
    pub fn view_tokens_for_project(&self, project_id: String, from_index: Option<u128>, limit: Option<u64>) -> (out:
        Vec<String>)
        requires
            self.wf(),
        ensures
            views_of(out@) == (if self@.project_to_tokens.contains_key(project_id@) {
                page_of(self@.project_to_tokens[project_id@], from_index, limit)
            } else {
                Seq::empty()
            }),
    {
        match self.project_to_tokens.get(&project_id) {
            Some(tokens) => tokens.view_page(from_index, limit),
            None => {
                let out: Vec<String> = Vec::new();
                assert(views_of(out@) =~= Seq::<Seq<char>>::empty());
                out
            },
        }
    }

    /// A page of the projects of a municipality; empty for an unknown municipality.
    pub fn view_projects_for_municipality(
        &self,
        municipality_id: String,
        from_index: Option<u128>,
        limit: Option<u64>,
    ) -> (out: Vec<String>)
        requires
            self.wf(),
        ensures
            views_of(out@) == (if self@.municipality_to_projects.contains_key(municipality_id@) {
                page_of(self@.municipality_to_projects[municipality_id@], from_index, limit)
            } else {
                Seq::empty()
            }),
    {
        match self.municipality_to_projects.get(&municipality_id) {
            Some(projects) => projects.view_page(from_index, limit),
            None => {
                let out: Vec<String> = Vec::new();
                assert(views_of(out@) =~= Seq::<Seq<char>>::empty());
                out
            },
        }
    }

    /// A page of the municipalities.
    pub fn view_municipalities(&self, from_index: Option<u128>, limit: Option<u64>) -> (out: Vec<String>)
        ensures
            views_of(out@) == page_of(self@.municipalities, from_index, limit),
    {
        self.municipalities.view_page(from_index, limit)
    }

    /// The owner of the factory.
    pub fn owner(&self) -> (owner_id: String)
        ensures
            owner_id@ == self@.owner_id,
    {
        self.owner_id.clone()
    }

    /// The bytecode of a token version.
    pub fn get_code_for_token_version(&self, token_version: &String) -> (r: Result<Vec<u8>, Error>)
        requires
            self.wf(),
        ensures
            match r {
                Ok(code) => self@.token_version_to_code.contains_key(token_version@) && code@
                    == self@.token_version_to_code[token_version@],
                Err(e) => !self@.token_version_to_code.contains_key(token_version@) && e
                    == Error::TokenVersionNotFound,
            },
    {
        match self.token_version_to_code.get(token_version) {
            Some(code) => Ok(copy_bytes(code)),
            None => Err(Error::TokenVersionNotFound),
        }
    }

    /// The ids of all token versions, in order.
    pub fn get_token_versions(&self) -> (out: Vec<String>)
        ensures
            views_of(out@) == self@.token_versions,
    {
        self.token_versions.to_vec()
    }

    /// What the deployment of a token version costs.
    pub fn get_deployment_cost(&self, token_version: String) -> (r: Result<u128, Error>)
        requires
            self.wf(),
        ensures
            match r {
                Ok(cost) => self@.token_version_to_code.contains_key(token_version@) && cost
                    == deployment_cost(self@.token_version_to_code[token_version@].len()),
                Err(e) => !self@.token_version_to_code.contains_key(token_version@) && e
                    == Error::TokenVersionNotFound,
            },
    {
        match self.token_version_to_code.get(&token_version) {
            Some(code) => Ok(storage_cost(code.len())),
            None => Err(Error::TokenVersionNotFound),
        }
    }
}

} // verus!
