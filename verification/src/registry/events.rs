//! The records that the registry writes to the log.

use vstd::prelude::*;
use crate::json::{
    event_frame,
    event_line,
    followed_by,
    json_string,
    nullable_member,
    object,
    object_of,
    objects_of,
    push_nullable,
    push_text,
    quote,
    text_member,
    to_json_all,
    written,
    ToJson,
};
use crate::string_set::views_of;

verus! {

/// What happened, with its payload.
#[derive(Debug, Clone, PartialEq, Eq)]
pub enum EventLogVariant {
    AddUser(Vec<AddUserLog>),
}

/// One record of the log.
#[derive(Debug, Clone, PartialEq, Eq)]
pub struct EventLog {
    pub version: String,
    pub event: EventLogVariant,
}

/// A user was added to a municipality.
#[derive(Debug, Clone, PartialEq, Eq)]
pub struct AddUserLog {
    pub user_id: String,
    pub municipality_id: String,
    pub memo: Option<String>,
}

/// The version that every record carries.
pub open spec fn event_version() -> Seq<char> {
    "1.0.0"@
}

impl EventLog {
    /// The record of one user added to a municipality, without a memo.
    pub open spec fn is_add_user(&self, user_id: Seq<char>, municipality_id: Seq<char>) -> bool {
        &&& self.version@ == event_version()
        &&& match self.event {
            EventLogVariant::AddUser(data) => {
                &&& data@.len() == 1
                &&& data@[0].user_id@ == user_id
                &&& data@[0].municipality_id@ == municipality_id
                &&& data@[0].memo is None
            },
        }
    }

    /// A record of `event` in the current version.
    pub fn new(event: EventLogVariant) -> (log: Self)
        ensures
            log.version@ == event_version(),
            log.event == event,
    {
        EventLog { version: String::from_str("1.0.0"), event }
    }
}

impl ToJson for AddUserLog {
    open spec fn json_of(&self) -> Option<Seq<char>> {
        object_of(
            followed_by(
                followed_by(
                    text_member("user_id"@, self.user_id@),
                    text_member("municipality_id"@, self.municipality_id@),
                ),
                nullable_member("memo"@, self.memo),
            ),
        )
    }

    fn to_json(&self) -> (r: Option<String>) {
        let mut members: Vec<String> = Vec::new();
        if !push_text(&mut members, "user_id", &self.user_id) {
            return None;
        }
        let ghost after_user_id = views_of(members@);
        assert(after_user_id =~= text_member("user_id"@, self.user_id@)->0);
        if !push_text(&mut members, "municipality_id", &self.municipality_id) {
            return None;
        }
        let ghost after_municipality_id = views_of(members@);
        assert(after_municipality_id =~= after_user_id + text_member("municipality_id"@, self.municipality_id@)->0);
        if !push_nullable(&mut members, "memo", &self.memo) {
            return None;
        }
        assert(views_of(members@) =~= after_municipality_id + nullable_member("memo"@, self.memo)->0);
        Some(object(&members))
    }
}

impl EventLogVariant {
    /// The name under which the event is written.
    pub open spec fn tag_of(&self) -> Seq<char> {
        match self {
            EventLogVariant::AddUser(_) => "add_user"@,
        }
    }

    /// The JSON texts of the payload, where each of them can be written.
    pub open spec fn data_of(&self) -> Option<Seq<Seq<char>>> {
        match self {
            EventLogVariant::AddUser(data) => objects_of(data@),
        }
    }
}

impl EventLog {
    /// The line that the record makes in the log: the marker, then the
    /// version, the name of the event and its payload in one object. There
    /// is none where one of the texts of the record cannot be written.
    pub open spec fn line_of(&self) -> Option<Seq<char>> {
        match (json_string(self.version@), self.event.data_of()) {
            (Some(version), Some(objects)) => Some(
                event_frame(version, self.event.tag_of(), objects),
            ),
            _ => None,
        }
    }

    /// Writes the line that the record makes in the log, or nothing where
    /// one of its texts cannot be written.
    pub fn to_string(&self) -> (r: Option<String>)
        ensures
            written(r) == self.line_of(),
    {
        let version = match quote(self.version.as_str()) {
            Some(version) => version,
            None => {
                return None;
            },
        };
        match &self.event {
            EventLogVariant::AddUser(data) => match to_json_all(data) {
                Some(objects) => Some(event_line(version.as_str(), "add_user", &objects)),
                None => None,
            },
        }
    }
}

} // verus!
