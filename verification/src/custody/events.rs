//! The records that the ledger writes to the log.

use vstd::prelude::*;
use crate::json::{
    event_frame,
    event_line,
    followed_by,
    json_string,
    nullable_member,
    object,
    object_of,
    objects_of,
    push_nullable,
    push_skipped,
    push_text,
    quote,
    skipped_member,
    text_member,
    to_json_all,
    written,
    ToJson,
};
use crate::string_set::views_of;

verus! {

/// What happened, with its payload.
#[derive(Debug, Clone, PartialEq, Eq)]
pub enum EventLogVariant {
    AddToken(Vec<AddTokenLog>),
    SendToken(Vec<SendTokenLog>),
    LinkAccount(Vec<LinkAccountLog>),
    ChangeAccount(Vec<ChangeAccountLog>),
}

/// One record of the log.
#[derive(Debug, Clone, PartialEq, Eq)]
pub struct EventLog {
    pub version: String,
    pub event: EventLogVariant,
}

/// A token was taken into custody for a user.
#[derive(Debug, Clone, PartialEq, Eq)]
pub struct AddTokenLog {
    pub owner_id: String,
    pub token_account_id: String,
    pub token_id: String,
    pub memo: Option<String>,
}

/// A token left custody for the account of its user.
#[derive(Debug, Clone, PartialEq, Eq)]
pub struct SendTokenLog {
    pub owner_id: String,
    pub token_account_id: String,
    pub token_id: String,
    pub memo: Option<String>,
}

/// A user linked an account for the first time.
#[derive(Debug, Clone, PartialEq, Eq)]
pub struct LinkAccountLog {
    pub user_id: String,
    pub account_id: String,
    pub memo: Option<String>,
}

/// A user replaced the linked account by another.
#[derive(Debug, Clone, PartialEq, Eq)]
pub struct ChangeAccountLog {
    pub user_id: String,
    pub old_account_id: String,
    pub new_account_id: String,
    pub memo: Option<String>,
}

/// The version that every record carries.
pub open spec fn event_version() -> Seq<char> {
    "1.0.0"@
}

impl EventLog {
    /// The record of one token taken into custody.
    pub open spec fn is_add_token(
        &self,
        owner_id: Seq<char>,
        token_account_id: Seq<char>,
        token_id: Seq<char>,
        memo: Option<String>,
    ) -> bool {
        &&& self.version@ == event_version()
        &&& match self.event {
            EventLogVariant::AddToken(data) => {
                &&& data@.len() == 1
                &&& data@[0].owner_id@ == owner_id
                &&& data@[0].token_account_id@ == token_account_id
                &&& data@[0].token_id@ == token_id
                &&& data@[0].memo == memo
            },
            _ => false,
        }
    }

    /// The record of one token sent to the account of its user.
    pub open spec fn is_send_token(
        &self,
        owner_id: Seq<char>,
        token_account_id: Seq<char>,
        token_id: Seq<char>,
        memo: Option<String>,
    ) -> bool {
        &&& self.version@ == event_version()
        &&& match self.event {
            EventLogVariant::SendToken(data) => {
                &&& data@.len() == 1
                &&& data@[0].owner_id@ == owner_id
                &&& data@[0].token_account_id@ == token_account_id
                &&& data@[0].token_id@ == token_id
                &&& data@[0].memo == memo
            },
            _ => false,
        }
    }

    /// The record of a first link, without a memo.
    pub open spec fn is_link_account(&self, user_id: Seq<char>, account_id: Seq<char>) -> bool {
        &&& self.version@ == event_version()
        &&& match self.event {
            EventLogVariant::LinkAccount(data) => {
                &&& data@.len() == 1
                &&& data@[0].user_id@ == user_id
                &&& data@[0].account_id@ == account_id
                &&& data@[0].memo is None
            },
            _ => false,
        }
    }

    /// The record of a changed link, without a memo.
    pub open spec fn is_change_account(
        &self,
        user_id: Seq<char>,
        old_account_id: Seq<char>,
        new_account_id: Seq<char>,
    ) -> bool {
        &&& self.version@ == event_version()
        &&& match self.event {
            EventLogVariant::ChangeAccount(data) => {
                &&& data@.len() == 1
                &&& data@[0].user_id@ == user_id
                &&& data@[0].old_account_id@ == old_account_id
                &&& data@[0].new_account_id@ == new_account_id
                &&& data@[0].memo is None
            },
            _ => false,
        }
    }

    /// A record of `event` in the current version.
    pub fn new(event: EventLogVariant) -> (log: Self)
        ensures
            log.version@ == event_version(),
            log.event == event,
    {
        EventLog { version: String::from_str("1.0.0"), event }
    }
}

impl ToJson for AddTokenLog {
    open spec fn json_of(&self) -> Option<Seq<char>> {
        object_of(
            followed_by(
                followed_by(
                    followed_by(
                        text_member("owner_id"@, self.owner_id@),
                        text_member("token_account_id"@, self.token_account_id@),
                    ),
                    text_member("token_id"@, self.token_id@),
                ),
                skipped_member("memo"@, self.memo),
            ),
        )
    }

    fn to_json(&self) -> (r: Option<String>) {
        let mut members: Vec<String> = Vec::new();
        if !push_text(&mut members, "owner_id", &self.owner_id) {
            return None;
        }
        let ghost after_owner_id = views_of(members@);
        assert(after_owner_id =~= text_member("owner_id"@, self.owner_id@)->0);
        if !push_text(&mut members, "token_account_id", &self.token_account_id) {
            return None;
        }
        let ghost after_token_account_id = views_of(members@);
        assert(after_token_account_id =~= after_owner_id + text_member("token_account_id"@, self.token_account_id@)->0);
        if !push_text(&mut members, "token_id", &self.token_id) {
            return None;
        }
        let ghost after_token_id = views_of(members@);
        assert(after_token_id =~= after_token_account_id + text_member("token_id"@, self.token_id@)->0);
        if !push_skipped(&mut members, "memo", &self.memo) {
            return None;
        }
        assert(views_of(members@) =~= after_token_id + skipped_member("memo"@, self.memo)->0);
        Some(object(&members))
    }
}

impl ToJson for SendTokenLog {
    open spec fn json_of(&self) -> Option<Seq<char>> {
        object_of(
            followed_by(
                followed_by(
                    followed_by(
                        text_member("owner_id"@, self.owner_id@),
                        text_member("token_account_id"@, self.token_account_id@),
                    ),
                    text_member("token_id"@, self.token_id@),
                ),
                skipped_member("memo"@, self.memo),
            ),
        )
    }

    fn to_json(&self) -> (r: Option<String>) {
        let mut members: Vec<String> = Vec::new();
        if !push_text(&mut members, "owner_id", &self.owner_id) {
            return None;
        }
        let ghost after_owner_id = views_of(members@);
        assert(after_owner_id =~= text_member("owner_id"@, self.owner_id@)->0);
        if !push_text(&mut members, "token_account_id", &self.token_account_id) {
            return None;
        }
        let ghost after_token_account_id = views_of(members@);
        assert(after_token_account_id =~= after_owner_id + text_member("token_account_id"@, self.token_account_id@)->0);
        if !push_text(&mut members, "token_id", &self.token_id) {
            return None;
        }
        let ghost after_token_id = views_of(members@);
        assert(after_token_id =~= after_token_account_id + text_member("token_id"@, self.token_id@)->0);
        if !push_skipped(&mut members, "memo", &self.memo) {
            return None;
        }
        assert(views_of(members@) =~= after_token_id + skipped_member("memo"@, self.memo)->0);
        Some(object(&members))
    }
}

impl ToJson for LinkAccountLog {
    open spec fn json_of(&self) -> Option<Seq<char>> {
        object_of(
            followed_by(
                followed_by(
                    text_member("user_id"@, self.user_id@),
                    text_member("account_id"@, self.account_id@),
                ),
                nullable_member("memo"@, self.memo),
            ),
        )
    }

    fn to_json(&self) -> (r: Option<String>) {
        let mut members: Vec<String> = Vec::new();
        if !push_text(&mut members, "user_id", &self.user_id) {
            return None;
        }
        let ghost after_user_id = views_of(members@);
        assert(after_user_id =~= text_member("user_id"@, self.user_id@)->0);
        if !push_text(&mut members, "account_id", &self.account_id) {
            return None;
        }
        let ghost after_account_id = views_of(members@);
        assert(after_account_id =~= after_user_id + text_member("account_id"@, self.account_id@)->0);
        if !push_nullable(&mut members, "memo", &self.memo) {
            return None;
        }
        assert(views_of(members@) =~= after_account_id + nullable_member("memo"@, self.memo)->0);
        Some(object(&members))
    }
}

impl ToJson for ChangeAccountLog {
    open spec fn json_of(&self) -> Option<Seq<char>> {
        object_of(
            followed_by(
                followed_by(
                    followed_by(
                        text_member("user_id"@, self.user_id@),
                        text_member("old_account_id"@, self.old_account_id@),
                    ),
                    text_member("new_account_id"@, self.new_account_id@),
                ),
                nullable_member("memo"@, self.memo),
            ),
        )
    }

    fn to_json(&self) -> (r: Option<String>) {
        let mut members: Vec<String> = Vec::new();
        if !push_text(&mut members, "user_id", &self.user_id) {
            return None;
        }
        let ghost after_user_id = views_of(members@);
        assert(after_user_id =~= text_member("user_id"@, self.user_id@)->0);
        if !push_text(&mut members, "old_account_id", &self.old_account_id) {
            return None;
        }
        let ghost after_old_account_id = views_of(members@);
        assert(after_old_account_id =~= after_user_id + text_member("old_account_id"@, self.old_account_id@)->0);
        if !push_text(&mut members, "new_account_id", &self.new_account_id) {
            return None;
        }
        let ghost after_new_account_id = views_of(members@);
        assert(after_new_account_id =~= after_old_account_id + text_member("new_account_id"@, self.new_account_id@)->0);
        if !push_nullable(&mut members, "memo", &self.memo) {
            return None;
        }
        assert(views_of(members@) =~= after_new_account_id + nullable_member("memo"@, self.memo)->0);
        Some(object(&members))
    }
}

impl EventLogVariant {
    /// The name under which the event is written.
    pub open spec fn tag_of(&self) -> Seq<char> {
        match self {
            EventLogVariant::AddToken(_) => "add_token"@,
            EventLogVariant::SendToken(_) => "send_token"@,
            EventLogVariant::LinkAccount(_) => "link_account"@,
            EventLogVariant::ChangeAccount(_) => "change_account"@,
        }
    }

    /// The JSON texts of the payload, where each of them can be written.
    pub open spec fn data_of(&self) -> Option<Seq<Seq<char>>> {
        match self {
            EventLogVariant::AddToken(data) => objects_of(data@),
            EventLogVariant::SendToken(data) => objects_of(data@),
            EventLogVariant::LinkAccount(data) => objects_of(data@),
            EventLogVariant::ChangeAccount(data) => objects_of(data@),
        }
    }
}

impl EventLog {
    /// The line that the record makes in the log: the marker, then the
    /// version, the name of the event and its payload in one object. There
    /// is none where one of the texts of the record cannot be written.
    pub open spec fn line_of(&self) -> Option<Seq<char>> {
        match (json_string(self.version@), self.event.data_of()) {
            (Some(version), Some(objects)) => Some(
                event_frame(version, self.event.tag_of(), objects),
            ),
            _ => None,
        }
    }

    /// Writes the line that the record makes in the log, or nothing where
    /// one of its texts cannot be written.
    pub fn to_string(&self) -> (r: Option<String>)
        ensures
            written(r) == self.line_of(),
    {
        let version = match quote(self.version.as_str()) {
            Some(version) => version,
            None => {
                return None;
            },
        };
        match &self.event {
            EventLogVariant::AddToken(data) => match to_json_all(data) {
                Some(objects) => Some(event_line(version.as_str(), "add_token", &objects)),
                None => None,
            },
            EventLogVariant::SendToken(data) => match to_json_all(data) {
                Some(objects) => Some(event_line(version.as_str(), "send_token", &objects)),
                None => None,
            },
            EventLogVariant::LinkAccount(data) => match to_json_all(data) {
                Some(objects) => Some(event_line(version.as_str(), "link_account", &objects)),
                None => None,
            },
            EventLogVariant::ChangeAccount(data) => match to_json_all(data) {
                Some(objects) => Some(event_line(version.as_str(), "change_account", &objects)),
                None => None,
            },
        }
    }
}

} // verus!
