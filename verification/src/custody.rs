//! The custodial ledger: the tokens held for each user, and the account that
//! each user has linked to receive them.

use vstd::prelude::*;
use crate::context::Context;
use crate::error::Error;
use crate::str_map::{sets_view, sets_wf, strings_view, StrMap};
use crate::string_set::StringSet;

pub mod events;
pub mod tokens;
pub mod types;
pub mod user_account;
pub mod views;

verus! {

/// What the ledger holds, as plain mathematical values.
pub struct State {
    pub owner_id: Seq<char>,
    /// Each user with the tokens held for it, each written as the account of
    /// the token contract, a colon and the token id.
    pub tokens_per_owner: Map<Seq<char>, Seq<Seq<char>>>,
    /// Each user with the account it has linked.
    pub user_to_account: Map<Seq<char>, Seq<char>>,
}

/// The ledger's state.
#[derive(Debug, Clone)]
pub struct Contract {
    pub owner_id: String,
    pub tokens_per_owner: StrMap<StringSet>,
    pub user_to_account: StrMap<String>,
}

/// The keys under which the ledger's collections are stored.
#[derive(Debug, Clone, Copy, PartialEq, Eq, Structural)]
pub enum StorageKey {
    TokensPerOwner,
    TokensPerOwnerInner,
    TokensAsVector,
    UserToAccount,
}

impl View for Contract {
    type V = State;

    open spec fn view(&self) -> State {
        State {
            owner_id: self.owner_id@,
            tokens_per_owner: sets_view(self.tokens_per_owner@),
            user_to_account: strings_view(self.user_to_account@),
        }
    }
}

impl Contract {
    /// No collection holds a key or an item twice.
    pub open spec fn wf(&self) -> bool {
        &&& self.tokens_per_owner.wf()
        &&& sets_wf(self.tokens_per_owner@)
        &&& self.user_to_account.wf()
    }

    /// A ledger that `owner_id` owns and that holds nothing yet.
    pub fn new(owner_id: String) -> (c: Self)
        ensures
            c.wf(),
            c@ == (State {
                owner_id: owner_id@,
                tokens_per_owner: Map::empty(),
                user_to_account: Map::empty(),
            }),
    {
        let c = Contract {
            owner_id,
            tokens_per_owner: StrMap::new(),
            user_to_account: StrMap::new(),
        };
        assert(c@.tokens_per_owner =~= Map::empty());
        assert(c@.user_to_account =~= Map::empty());
        c
    }

    /// Accepts the call only from the owner of the ledger.
    pub fn assert_owner(&self, ctx: &Context) -> (r: Result<(), Error>)
        ensures
            r == (if ctx.predecessor_account_id@ == self.owner_id@ {
                Ok::<(), Error>(())
            } else {
                Err::<(), Error>(Error::CallerNotOwner)
            }),
    {
        if ctx.predecessor_account_id == self.owner_id {
            Ok(())
        } else {
            Err(Error::CallerNotOwner)
        }
    }
}

} // verus!
