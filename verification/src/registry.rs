//! The user registry: which users each municipality has approved.

use vstd::prelude::*;
use crate::context::Context;
use crate::error::Error;
use crate::str_map::{sets_view, sets_wf, StrMap};
use crate::string_set::StringSet;

pub mod events;
pub mod registry_core;
pub mod views;

verus! {

/// What the registry holds, as plain mathematical values.
pub struct State {
    pub owner_id: Seq<char>,
    /// Each municipality with its users, in order.
    pub municipality_to_users: Map<Seq<char>, Seq<Seq<char>>>,
}

/// The registry's state.
#[derive(Debug, Clone)]
pub struct Contract {
    pub owner_id: String,
    pub municipality_to_users: StrMap<StringSet>,
}

/// The keys under which the registry's collections are stored.
#[derive(Debug, Clone, Copy, PartialEq, Eq, Structural)]
pub enum StorageKey {
    MunicipalityToUsers,
    MunicipalityToUsersInner,
    MuncipalityToUsersVector,
}

impl View for Contract {
    type V = State;

    open spec fn view(&self) -> State {
        State {
            owner_id: self.owner_id@,
            municipality_to_users: sets_view(self.municipality_to_users@),
        }
    }
}

impl Contract {
    /// No collection holds a key or an item twice.
    pub open spec fn wf(&self) -> bool {
        &&& self.municipality_to_users.wf()
        &&& sets_wf(self.municipality_to_users@)
    }

    /// A registry that `owner_id` owns and that holds nothing yet.
    pub fn new(owner_id: String) -> (c: Self)
        ensures
            c.wf(),
            c@ == (State { owner_id: owner_id@, municipality_to_users: Map::empty() }),
    {
        let c = Contract { owner_id, municipality_to_users: StrMap::new() };
        assert(c@.municipality_to_users =~= Map::empty());
        c
    }

    /// Accepts the call only from the owner of the registry.
    pub fn assert_owner(&self, ctx: &Context) -> (r: Result<(), Error>)
        ensures
            r == (if ctx.predecessor_account_id@ == self.owner_id@ {
                Ok::<(), Error>(())
            } else {
                Err::<(), Error>(Error::CallerNotOwner)
            }),
    {
        if ctx.predecessor_account_id == self.owner_id {
            Ok(())
        } else {
            Err(Error::CallerNotOwner)
        }
    }
}

} // verus!
