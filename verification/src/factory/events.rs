//! The records that the factory writes to the log.

use vstd::prelude::*;
use crate::json::{
    event_frame,
    event_line,
    followed_by,
    json_string,
    object,
    object_of,
    objects_of,
    push_skipped,
    push_text,
    quote,
    skipped_member,
    text_member,
    to_json_all,
    written,
    ToJson,
};
use crate::string_set::views_of;

verus! {

/// What happened, with its payload.
#[derive(Debug, Clone, PartialEq, Eq)]
pub enum EventLogVariant {
    AddMunicipality(Vec<AddMunicipalityLog>),
    AddProject(Vec<AddProjectLog>),
    AddProjectToken(Vec<AddProjectTokenLog>),
}

/// One record of the log.
#[derive(Debug, Clone, PartialEq, Eq)]
pub struct EventLog {
    pub version: String,
    pub event: EventLogVariant,
}

/// A municipality was added.
#[derive(Debug, Clone, PartialEq, Eq)]
pub struct AddMunicipalityLog {
    pub municipality_id: String,
    pub memo: Option<String>,
}

/// A project was added to a municipality.
#[derive(Debug, Clone, PartialEq, Eq)]
pub struct AddProjectLog {
    pub municipality_id: String,
    pub project_id: String,
    pub memo: Option<String>,
}

/// A token contract was registered for a project.
#[derive(Debug, Clone, PartialEq, Eq)]
pub struct AddProjectTokenLog {
    pub municipality_id: String,
    pub project_id: String,
    pub token_id: String,
    pub memo: Option<String>,
}

/// The version that every record carries.
pub open spec fn event_version() -> Seq<char> {
    "1.0.0"@
}

impl EventLog {
    /// The record of one added municipality.
    pub open spec fn is_add_municipality(&self, municipality_id: Seq<char>, memo: Option<String>) -> bool {
        &&& self.version@ == event_version()
        &&& match self.event {
            EventLogVariant::AddMunicipality(data) => {
                &&& data@.len() == 1
                &&& data@[0].municipality_id@ == municipality_id
                &&& data@[0].memo == memo
            },
            _ => false,
        }
    }

    /// The record of one added project.
    pub open spec fn is_add_project(
        &self,
        municipality_id: Seq<char>,
        project_id: Seq<char>,
        memo: Option<String>,
    ) -> bool {
        &&& self.version@ == event_version()
        &&& match self.event {
            EventLogVariant::AddProject(data) => {
                &&& data@.len() == 1
                &&& data@[0].municipality_id@ == municipality_id
                &&& data@[0].project_id@ == project_id
                &&& data@[0].memo == memo
            },
            _ => false,
        }
    }

    /// The record of one token contract registered for a project.
    pub open spec fn is_add_project_token(
        &self,
        municipality_id: Seq<char>,
        project_id: Seq<char>,
        token_id: Seq<char>,
        memo: Option<String>,
    ) -> bool {
        &&& self.version@ == event_version()
        &&& match self.event {
            EventLogVariant::AddProjectToken(data) => {
                &&& data@.len() == 1
                &&& data@[0].municipality_id@ == municipality_id
                &&& data@[0].project_id@ == project_id
                &&& data@[0].token_id@ == token_id
                &&& data@[0].memo == memo
            },
            _ => false,
        }
    }

    /// A record of `event` in the current version.
    pub fn new(event: EventLogVariant) -> (log: Self)
        ensures
            log.version@ == event_version(),
            log.event == event,
    {
        EventLog { version: String::from_str("1.0.0"), event }
    }
}

impl ToJson for AddMunicipalityLog {
    open spec fn json_of(&self) -> Option<Seq<char>> {
        object_of(
            followed_by(
                text_member("municipality_id"@, self.municipality_id@),
                skipped_member("memo"@, self.memo),
            ),
        )
    }

    fn to_json(&self) -> (r: Option<String>) {
        let mut members: Vec<String> = Vec::new();
        if !push_text(&mut members, "municipality_id", &self.municipality_id) {
            return None;
        }
        let ghost after_municipality_id = views_of(members@);
        assert(after_municipality_id =~= text_member("municipality_id"@, self.municipality_id@)->0);
        if !push_skipped(&mut members, "memo", &self.memo) {
            return None;
        }
        assert(views_of(members@) =~= after_municipality_id + skipped_member("memo"@, self.memo)->0);
        Some(object(&members))
    }
}

impl ToJson for AddProjectLog {
    open spec fn json_of(&self) -> Option<Seq<char>> {
        object_of(
            followed_by(
                followed_by(
                    text_member("municipality_id"@, self.municipality_id@),
                    text_member("project_id"@, self.project_id@),
                ),
                skipped_member("memo"@, self.memo),
            ),
        )
    }

    fn to_json(&self) -> (r: Option<String>) {
        let mut members: Vec<String> = Vec::new();
        if !push_text(&mut members, "municipality_id", &self.municipality_id) {
            return None;
        }
        let ghost after_municipality_id = views_of(members@);
        assert(after_municipality_id =~= text_member("municipality_id"@, self.municipality_id@)->0);
        if !push_text(&mut members, "project_id", &self.project_id) {
            return None;
        }
        let ghost after_project_id = views_of(members@);
        assert(after_project_id =~= after_municipality_id + text_member("project_id"@, self.project_id@)->0);
        if !push_skipped(&mut members, "memo", &self.memo) {
            return None;
        }
        assert(views_of(members@) =~= after_project_id + skipped_member("memo"@, self.memo)->0);
        Some(object(&members))
    }
}

impl ToJson for AddProjectTokenLog {
    open spec fn json_of(&self) -> Option<Seq<char>> {
        object_of(
            followed_by(
                followed_by(
                    followed_by(
                        text_member("municipality_id"@, self.municipality_id@),
                        text_member("project_id"@, self.project_id@),
                    ),
                    text_member("token_id"@, self.token_id@),
                ),
                skipped_member("memo"@, self.memo),
            ),
        )
    }

    fn to_json(&self) -> (r: Option<String>) {
        let mut members: Vec<String> = Vec::new();
        if !push_text(&mut members, "municipality_id", &self.municipality_id) {
            return None;
        }
        let ghost after_municipality_id = views_of(members@);
        assert(after_municipality_id =~= text_member("municipality_id"@, self.municipality_id@)->0);
        if !push_text(&mut members, "project_id", &self.project_id) {
            return None;
        }
        let ghost after_project_id = views_of(members@);
        assert(after_project_id =~= after_municipality_id + text_member("project_id"@, self.project_id@)->0);
        if !push_text(&mut members, "token_id", &self.token_id) {
            return None;
        }
        let ghost after_token_id = views_of(members@);
        assert(after_token_id =~= after_project_id + text_member("token_id"@, self.token_id@)->0);
        if !push_skipped(&mut members, "memo", &self.memo) {
            return None;
        }
        assert(views_of(members@) =~= after_token_id + skipped_member("memo"@, self.memo)->0);
        Some(object(&members))
    }
}

impl EventLogVariant {
    /// The name under which the event is written.
    pub open spec fn tag_of(&self) -> Seq<char> {
        match self {
            EventLogVariant::AddMunicipality(_) => "add_municipality"@,
            EventLogVariant::AddProject(_) => "add_project"@,
            EventLogVariant::AddProjectToken(_) => "add_project_token"@,
        }
    }

    /// The JSON texts of the payload, where each of them can be written.
    pub open spec fn data_of(&self) -> Option<Seq<Seq<char>>> {
        match self {
            EventLogVariant::AddMunicipality(data) => objects_of(data@),
            EventLogVariant::AddProject(data) => objects_of(data@),
            EventLogVariant::AddProjectToken(data) => objects_of(data@),
        }
    }
}

impl EventLog {
    /// The line that the record makes in the log: the marker, then the
    /// version, the name of the event and its payload in one object. There
    /// is none where one of the texts of the record cannot be written.
    pub open spec fn line_of(&self) -> Option<Seq<char>> {
        match (json_string(self.version@), self.event.data_of()) {
            (Some(version), Some(objects)) => Some(
                event_frame(version, self.event.tag_of(), objects),
            ),
            _ => None,
        }
    }

    /// Writes the line that the record makes in the log, or nothing where
    /// one of its texts cannot be written.
    pub fn to_string(&self) -> (r: Option<String>)
        ensures
            written(r) == self.line_of(),
    {
        let version = match quote(self.version.as_str()) {
            Some(version) => version,
            None => {
                return None;
            },
        };
        match &self.event {
            EventLogVariant::AddMunicipality(data) => match to_json_all(data) {
                Some(objects) => Some(event_line(version.as_str(), "add_municipality", &objects)),
                None => None,
            },
            EventLogVariant::AddProject(data) => match to_json_all(data) {
                Some(objects) => Some(event_line(version.as_str(), "add_project", &objects)),
                None => None,
            },
            EventLogVariant::AddProjectToken(data) => match to_json_all(data) {
                Some(objects) => Some(event_line(version.as_str(), "add_project_token", &objects)),
                None => None,
            },
        }
    }
}

} // verus!
