//! Linking a user to the account that will receive its tokens.

use vstd::prelude::*;
use crate::context::Context;
use crate::custody::events::{ChangeAccountLog, EventLog, EventLogVariant, LinkAccountLog};
use crate::custody::{Contract, State};
use crate::error::Error;
use crate::host::{is_valid_account_id, valid_account_id};

verus! {

/// What linking an account to a user amounts to.
pub enum LinkEffect {
    /// The user had no account: this is its first.
    Linked,
    /// The user had another account, which is replaced.
    Changed { old_account_id: Seq<char> },
    /// The user had this very account: nothing happens.
    Unchanged,
}

/// What linking `account_id` to `user_id` amounts to in the ledger `s`.
pub open spec fn link_effect(s: State, user_id: Seq<char>, account_id: Seq<char>) -> LinkEffect {
    if !s.user_to_account.contains_key(user_id) {
        LinkEffect::Linked
    } else if s.user_to_account[user_id] == account_id {
        LinkEffect::Unchanged
    } else {
        LinkEffect::Changed { old_account_id: s.user_to_account[user_id] }
    }
}

/// Why an account cannot be linked, if it cannot.
pub open spec fn link_refusal(s: State, caller: Seq<char>, account_id: Seq<char>) -> Option<Error> {
    if caller != s.owner_id {
        Some(Error::CallerNotOwner)
    } else if !valid_account_id(account_id) {
        Some(Error::InvalidAccountId)
    } else {
        None
    }
}

/// The ledger after `account_id` was linked to `user_id`.
pub open spec fn with_link(s: State, user_id: Seq<char>, account_id: Seq<char>) -> State {
    State { user_to_account: s.user_to_account.insert(user_id, account_id), ..s }
}

impl Contract {
    /// Links `account_id` to `user_id`. The first link is recorded as a
    /// link, a different account replaces the old one and is recorded as a
    /// change, and the same account again changes nothing and records
    /// nothing. Only the owner may link, and only a valid account id.
    pub fn link_account_to_user(&mut self, ctx: &Context, user_id: String, account_id: String) -> (r:
        Result<Option<EventLog>, Error>)
        requires
            old(self).wf(),
        ensures
            final(self).wf(),
            match r {
                Err(e) => {
                    &&& link_refusal(old(self)@, ctx.predecessor_account_id@, account_id@) == Some(e)
                    &&& *final(self) == *old(self)
                },
                Ok(record) => {
                    &&& link_refusal(old(self)@, ctx.predecessor_account_id@, account_id@) is None
                    &&& final(self)@ == with_link(old(self)@, user_id@, account_id@)
                    &&& match link_effect(old(self)@, user_id@, account_id@) {
                        LinkEffect::Linked => record is Some && record->0.is_link_account(
                            user_id@,
                            account_id@,
                        ),
                        LinkEffect::Changed { old_account_id } => record is Some
                            && record->0.is_change_account(user_id@, old_account_id, account_id@),
                        LinkEffect::Unchanged => record is None && *final(self) == *old(self),
                    }
                },
            },
    {
        match self.assert_owner(ctx) {
            Err(e) => {
                return Err(e);
            },
            Ok(_) => {},
        }
        if !is_valid_account_id(account_id.as_str()) {
            return Err(Error::InvalidAccountId);
        }
        match self.user_to_account.get(&user_id) {
            Some(existing_account_id) => {
                if *existing_account_id == account_id {
                    assert(self@.user_to_account =~= self@.user_to_account.insert(
                        user_id@,
                        account_id@,
                    ));
                    return Ok(None);
                }
            },
            None => {},
        }
        let previous = self.user_to_account.insert(user_id.clone(), account_id.clone());
        assert(self@.user_to_account =~= old(self)@.user_to_account.insert(user_id@, account_id@));
        match previous {
            None => {
                let mut data: Vec<LinkAccountLog> = Vec::new();
                data.push(LinkAccountLog { user_id, account_id, memo: None });
                Ok(Some(EventLog::new(EventLogVariant::LinkAccount(data))))
            },
            Some(existing_account_id) => {
                let mut data: Vec<ChangeAccountLog> = Vec::new();
                data.push(
                    ChangeAccountLog {
                        user_id,
                        old_account_id: existing_account_id,
                        new_account_id: account_id,
                        memo: None,
                    },
                );
                Ok(Some(EventLog::new(EventLogVariant::ChangeAccount(data))))
            },
        }
    }
}

/// Linking is an upsert. For a user without an account, linking `first` is
/// a first link and stores `first`; linking a different account `second`
/// after that is a change from `first` and stores `second`; linking `second`
/// once more is no event and leaves the ledger as it is.
pub proof fn law_link_then_change_then_silence(
    s: State,
    user_id: Seq<char>,
    first: Seq<char>,
    second: Seq<char>,
)
    requires
        !s.user_to_account.contains_key(user_id),
        first != second,
    ensures
        ({
            let s1 = with_link(s, user_id, first);
            let s2 = with_link(s1, user_id, second);
            &&& link_effect(s, user_id, first) == LinkEffect::Linked
            &&& s1.user_to_account[user_id] == first
            &&& link_effect(s1, user_id, second) == (LinkEffect::Changed { old_account_id: first })
            &&& s2.user_to_account[user_id] == second
            &&& link_effect(s2, user_id, second) == LinkEffect::Unchanged
            &&& with_link(s2, user_id, second) == s2
        }),
{
    let s1 = with_link(s, user_id, first);
    let s2 = with_link(s1, user_id, second);
    assert(with_link(s2, user_id, second).user_to_account =~= s2.user_to_account);
}

/// Nobody but the owner links an account to a user.
pub proof fn law_only_the_owner_links(s: State, caller: Seq<char>, account_id: Seq<char>)
    requires
        caller != s.owner_id,
    ensures
        link_refusal(s, caller, account_id) == Some(Error::CallerNotOwner),
{
}

/// Linking an account to a user stores that account for the user and leaves
/// the account of every other user as it is.
pub proof fn law_link_touches_one_user(s: State, user_id: Seq<char>, account_id: Seq<char>)
    ensures
        with_link(s, user_id, account_id).user_to_account.contains_key(user_id),
        with_link(s, user_id, account_id).user_to_account[user_id] == account_id,
        forall|other: Seq<char>|
            other != user_id && s.user_to_account.contains_key(other) ==> with_link(
                s,
                user_id,
                account_id,
            ).user_to_account[other] == s.user_to_account[other],
{
}

} // verus!
