//! What the registry shows to readers.

use vstd::prelude::*;
use crate::registry::registry_core::users_of;
use crate::registry::Contract;
use crate::string_set::{page_of, views_of};

verus! {

impl Contract {
    /// A page of the users of a municipality; empty for an unknown municipality.
    pub fn get_users_for_municipality(
        &self,
        municipality_id: String,
        from_index: Option<u128>,
        limit: Option<u64>,
    ) -> (out: Vec<String>)
        requires
            self.wf(),
        ensures
            views_of(out@) == (if self@.municipality_to_users.contains_key(municipality_id@) {
                page_of(self@.municipality_to_users[municipality_id@], from_index, limit)
            } else {
                Seq::empty()
            }),
    {
        match self.municipality_to_users.get(&municipality_id) {
            Some(users) => users.view_page(from_index, limit),
            None => {
                let out: Vec<String> = Vec::new();
                assert(views_of(out@) =~= Seq::<Seq<char>>::empty());
                out
            },
        }
    }

    /// Whether the user has been added to the municipality.
    pub fn is_user_in_municipality(&self, municipality_id: String, user_id: String) -> (b: bool)
        requires
            self.wf(),
        ensures
            b == users_of(self@, municipality_id@).contains(user_id@),
    {
        match self.municipality_to_users.get(&municipality_id) {
            Some(users) => users.contains(&user_id),
            None => false,
        }
    }
}

} // verus!
