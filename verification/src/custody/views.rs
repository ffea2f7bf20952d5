//! What the ledger shows to readers.

use vstd::prelude::*;
use crate::custody::Contract;
use crate::string_set::{page_of, views_of};

verus! {

impl Contract {
    /// A page of the tokens held for a user; empty for an unknown user.
    pub fn tokens_for_owner(&self, owner_id: String, from_index: Option<u128>, limit: Option<u64>) -> (out:
        Vec<String>)
        requires
            self.wf(),
        ensures
            views_of(out@) == (if self@.tokens_per_owner.contains_key(owner_id@) {
                page_of(self@.tokens_per_owner[owner_id@], from_index, limit)
            } else {
                Seq::empty()
            }),
    {
        match self.tokens_per_owner.get(&owner_id) {
            Some(tokens) => tokens.view_page(from_index, limit),
            None => {
                let out: Vec<String> = Vec::new();
                assert(views_of(out@) =~= Seq::<Seq<char>>::empty());
                out
            },
        }
    }

    /// The account that a user has linked, if any.
    pub fn get_account_for_user(&self, user_id: String) -> (r: Option<String>)
        requires
            self.wf(),
        ensures
            match r {
                Some(account_id) => self@.user_to_account.contains_key(user_id@) && account_id@
                    == self@.user_to_account[user_id@],
                None => !self@.user_to_account.contains_key(user_id@),
            },
    {
        match self.user_to_account.get(&user_id) {
            Some(account_id) => Some(account_id.clone()),
            None => None,
        }
    }
}

} // verus!
