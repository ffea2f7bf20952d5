//! Adding users to municipalities.

use vstd::prelude::*;
use crate::context::Context;
use crate::error::Error;
use crate::registry::events::{AddUserLog, EventLog, EventLogVariant};
use crate::registry::{Contract, State};
use crate::string_set::StringSet;

verus! {

/// The users of `municipality_id`; none for a municipality without users.
pub open spec fn users_of(s: State, municipality_id: Seq<char>) -> Seq<Seq<char>> {
    if s.municipality_to_users.contains_key(municipality_id) {
        s.municipality_to_users[municipality_id]
    } else {
        Seq::empty()
    }
}

/// The registry after a user was added to a municipality.
pub open spec fn with_user(s: State, municipality_id: Seq<char>, user_id: Seq<char>) -> State {
    State {
        municipality_to_users: s.municipality_to_users.insert(
            municipality_id,
            users_of(s, municipality_id).push(user_id),
        ),
        ..s
    }
}

/// Why a user cannot be added to a municipality, if it cannot.
pub open spec fn add_user_refusal(
    s: State,
    caller: Seq<char>,
    municipality_id: Seq<char>,
    user_id: Seq<char>,
) -> Option<Error> {
    if caller != s.owner_id {
        Some(Error::CallerNotOwner)
    } else if users_of(s, municipality_id).contains(user_id) {
        Some(Error::UserExists)
    } else {
        None
    }
}

impl Contract {
    /// Adds a user to a municipality. Only the owner may do so, and only
    /// once for each user of a municipality.
    pub fn add_user_to_municipality(&mut self, ctx: &Context, municipality_id: String, user_id: String) -> (r:
        Result<EventLog, Error>)
        requires
            old(self).wf(),
        ensures
            final(self).wf(),
            match r {
                Err(e) => add_user_refusal(
                    old(self)@,
                    ctx.predecessor_account_id@,
                    municipality_id@,
                    user_id@,
                ) == Some(e) && *final(self) == *old(self),
                Ok(log) => {
                    &&& add_user_refusal(
                        old(self)@,
                        ctx.predecessor_account_id@,
                        municipality_id@,
                        user_id@,
                    ) is None
                    &&& final(self)@ == with_user(old(self)@, municipality_id@, user_id@)
                    &&& log.is_add_user(user_id@, municipality_id@)
                },
            },
    {
        match self.assert_owner(ctx) {
            Err(e) => {
                return Err(e);
            },
            Ok(_) => {},
        }
        match self.municipality_to_users.get(&municipality_id) {
            Some(users) => {
                if users.contains(&user_id) {
                    return Err(Error::UserExists);
                }
            },
            None => {},
        }
        let mut users = match self.municipality_to_users.remove(&municipality_id) {
            Some(users) => users,
            None => StringSet::new(),
        };
        let _ = users.insert(user_id.clone());
        let _ = self.municipality_to_users.insert(municipality_id.clone(), users);
        assert(self@.municipality_to_users =~= old(self)@.municipality_to_users.insert(
            municipality_id@,
            users_of(old(self)@, municipality_id@).push(user_id@),
        ));
        let mut data: Vec<AddUserLog> = Vec::new();
        data.push(AddUserLog { user_id, municipality_id, memo: None });
        Ok(EventLog::new(EventLogVariant::AddUser(data)))
    }
}

/// A user is added to a municipality once: after it was added, adding it
/// again is refused as a duplicate. Nobody but the owner adds users.
pub proof fn law_user_is_added_once(
    s: State,
    caller: Seq<char>,
    municipality_id: Seq<char>,
    user_id: Seq<char>,
)
    ensures
        caller != s.owner_id ==> add_user_refusal(s, caller, municipality_id, user_id) == Some(
            Error::CallerNotOwner,
        ),
        add_user_refusal(s, caller, municipality_id, user_id) is None ==> add_user_refusal(
            with_user(s, municipality_id, user_id),
            caller,
            municipality_id,
            user_id,
        ) == Some(Error::UserExists),
{
    let users = users_of(s, municipality_id).push(user_id);
    assert(users[users.len() - 1] == user_id);
}

} // verus!
