//! The bond factory: municipalities, the projects registered under them, the
//! token contracts deployed for each project, and the bytecode versions that
//! can be deployed.

use vstd::prelude::*;
use crate::context::Context;
use crate::error::Error;
use crate::str_map::{sets_view, sets_wf, StrMap};
use crate::string_set::StringSet;

pub mod events;
pub mod factory_core;
pub mod tokens;
pub mod types;
pub mod views;

verus! {

/// What the factory holds, as plain mathematical values.
pub struct State {
    pub owner_id: Seq<char>,
    /// The municipalities, in the order in which they were added.
    pub municipalities: Seq<Seq<char>>,
    /// Each municipality with its projects, in order.
    pub municipality_to_projects: Map<Seq<char>, Seq<Seq<char>>>,
    /// Each project with the accounts of its token contracts, in order.
    pub project_to_tokens: Map<Seq<char>, Seq<Seq<char>>>,
    /// The ids of the token versions, in order.
    pub token_versions: Seq<Seq<char>>,
    /// Each token version with its bytecode.
    pub token_version_to_code: Map<Seq<char>, Seq<u8>>,
}

/// The contents of a map of byte strings.
pub open spec fn codes_view(m: Map<Seq<char>, Vec<u8>>) -> Map<Seq<char>, Seq<u8>> {
    Map::new(|k: Seq<char>| m.contains_key(k), |k: Seq<char>| m[k]@)
}

/// The factory's state.
#[derive(Debug, Clone)]
pub struct Contract {
    pub owner_id: String,
    pub municipalities: StringSet,
    pub municipality_to_projects: StrMap<StringSet>,
    pub project_to_tokens: StrMap<StringSet>,
    pub token_versions: StringSet,
    pub token_version_to_code: StrMap<Vec<u8>>,
}

/// The keys under which the factory's collections are stored.
#[derive(Debug, Clone, Copy, PartialEq, Eq, Structural)]
pub enum StorageKey {
    Municipalities,
    MunicipalityToProjects,
    MunicipalityToProjectsInner,
    ProjectToTokens,
    ProjectToTokensInner,
    TokensAsVector,
    ProjectsAsVector,
    TokenVersions,
    TokenVersionToCode,
    TokenVersionToCodeInner,
}

impl View for Contract {
    type V = State;

    open spec fn view(&self) -> State {
        State {
            owner_id: self.owner_id@,
            municipalities: self.municipalities@,
            municipality_to_projects: sets_view(self.municipality_to_projects@),
            project_to_tokens: sets_view(self.project_to_tokens@),
            token_versions: self.token_versions@,
            token_version_to_code: codes_view(self.token_version_to_code@),
        }
    }
}

impl Contract {
    /// No collection holds a key or an item twice.
    pub open spec fn wf(&self) -> bool {
        &&& self.municipalities.wf()
        &&& self.municipality_to_projects.wf()
        &&& sets_wf(self.municipality_to_projects@)
        &&& self.project_to_tokens.wf()
        &&& sets_wf(self.project_to_tokens@)
        &&& self.token_versions.wf()
        &&& self.token_version_to_code.wf()
    }

    /// A factory that `owner_id` owns and that holds nothing yet.
    pub fn new(owner_id: String) -> (c: Self)
        ensures
            c.wf(),
            c@ == (State {
                owner_id: owner_id@,
                municipalities: Seq::empty(),
                municipality_to_projects: Map::empty(),
                project_to_tokens: Map::empty(),
                token_versions: Seq::empty(),
                token_version_to_code: Map::empty(),
            }),
    {
        let c = Contract {
            owner_id,
            municipalities: StringSet::new(),
            municipality_to_projects: StrMap::new(),
            project_to_tokens: StrMap::new(),
            token_versions: StringSet::new(),
            token_version_to_code: StrMap::new(),
        };
        assert(c@.municipality_to_projects =~= Map::empty());
        assert(c@.project_to_tokens =~= Map::empty());
        assert(c@.token_version_to_code =~= Map::empty());
        c
    }

    /// Accepts the call only from the owner of the factory.
    pub fn assert_owner(&self, ctx: &Context) -> (r: Result<(), Error>)
        ensures
            r == (if ctx.predecessor_account_id@ == self.owner_id@ {
                Ok::<(), Error>(())
            } else {
                Err::<(), Error>(Error::CallerNotOwner)
            }),
    {
        if ctx.predecessor_account_id == self.owner_id {
            Ok(())
        } else {
            Err(Error::CallerNotOwner)
        }
    }
}

} // verus!
