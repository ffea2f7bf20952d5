//! The JSON text of the event records.
//!
//! Strings are quoted and escaped by `serde_json`; the objects, the arrays
//! and the record around them are put together here.

use vstd::prelude::*;
use crate::string_set::views_of;

verus! {

/// What `serde_json` makes of a string: the JSON string literal, that is the
/// string in double quotes with the characters escaped that JSON asks for, or
/// nothing where it does not write the string.
pub uninterp spec fn json_string(s: Seq<char>) -> Option<Seq<char>>;

/// The characters of a text that may be missing.
pub open spec fn written(text: Option<String>) -> Option<Seq<char>> {
    match text {
        Some(text) => Some(text@),
        None => None,
    }
}

/// Calls `serde_json::to_string` on a string. Trusted: what the call gives,
/// the text or the failure, depends on nothing but the string.
#[verifier::external_body]
pub(crate) fn quote(s: &str) -> (r: Option<String>)
    ensures
        written(r) == json_string(s@),
{
    serde_json::to_string(s).ok()
}

/// A member of an object: the name in quotes, a colon, and the value as it
/// is written.
pub open spec fn member_text(name: Seq<char>, value: Seq<char>) -> Seq<char> {
    "\""@ + name + "\":"@ + value
}

/// The texts of `items` with a comma between each two.
pub open spec fn joined(items: Seq<Seq<char>>) -> Seq<char>
    decreases items.len(),
{
    if items.len() == 0 {
        Seq::empty()
    } else if items.len() == 1 {
        items[0]
    } else {
        joined(items.drop_last()) + ","@ + items.last()
    }
}

/// An object with the given members.
pub open spec fn object_text(members: Seq<Seq<char>>) -> Seq<char> {
    "{"@ + joined(members) + "}"@
}

/// An array with the given items.
pub open spec fn array_text(items: Seq<Seq<char>>) -> Seq<char> {
    "["@ + joined(items) + "]"@
}

/// The member for a text, where the text can be written.
pub open spec fn text_member(name: Seq<char>, value: Seq<char>) -> Option<Seq<Seq<char>>> {
    match json_string(value) {
        Some(text) => Some(seq![member_text(name, text)]),
        None => None,
    }
}

/// The member for a text that is left out where there is none.
pub open spec fn skipped_member(name: Seq<char>, value: Option<String>) -> Option<Seq<Seq<char>>> {
    match value {
        Some(text) => text_member(name, text@),
        None => Some(Seq::empty()),
    }
}

/// The member for a text that is written as `null` where there is none.
pub open spec fn nullable_member(name: Seq<char>, value: Option<String>) -> Option<Seq<Seq<char>>> {
    match value {
        Some(text) => text_member(name, text@),
        None => Some(seq![member_text(name, "null"@)]),
    }
}

/// `members` with `more` after them, where both can be written.
pub open spec fn followed_by(members: Option<Seq<Seq<char>>>, more: Option<Seq<Seq<char>>>) -> Option<
    Seq<Seq<char>>,
> {
    match (members, more) {
        (Some(members), Some(more)) => Some(members + more),
        _ => None,
    }
}

/// The object with the given members, where they can be written.
pub open spec fn object_of(members: Option<Seq<Seq<char>>>) -> Option<Seq<char>> {
    match members {
        Some(members) => Some(object_text(members)),
        None => None,
    }
}

/// One line of the log: the marker, then an object with the version, the
/// name of the event and its data. `version` is written as it is given, so
/// it has to be quoted already; `objects` are the items of the data.
pub open spec fn event_frame(version: Seq<char>, tag: Seq<char>, objects: Seq<Seq<char>>) -> Seq<
    char,
> {
    "EVENT_JSON:"@ + object_text(
        seq![
            member_text("version"@, version),
            member_text("event"@, "\""@ + tag + "\""@),
            member_text("data"@, array_text(objects)),
        ],
    )
}

/// Writes a member of an object.
pub fn member(name: &str, value: &str) -> (text: String)
    ensures
        text@ == member_text(name@, value@),
{
    String::from_str("\"").concat(name).concat("\":").concat(value)
}

/// Writes `items` with a comma between each two.
pub fn join(items: &Vec<String>) -> (text: String)
    ensures
        text@ == joined(views_of(items@)),
{
    let mut text = String::new();
    let mut i: usize = 0;
    while i < items.len()
        invariant
            i <= items.len(),
            text@ == joined(views_of(items@).subrange(0, i as int)),
        decreases items.len() - i,
    {
        let ghost before = views_of(items@).subrange(0, i as int);
        let ghost after = views_of(items@).subrange(0, i + 1);
        assert(after.drop_last() =~= before);
        assert(after.last() == items@[i as int]@);
        if i > 0 {
            text.append(",");
        }
        text.append(items[i].as_str());
        assert(text@ =~= joined(after));
        i += 1;
    }
    assert(views_of(items@).subrange(0, items@.len() as int) =~= views_of(items@));
    text
}

/// Writes an object with the given members.
pub fn object(members: &Vec<String>) -> (text: String)
    ensures
        text@ == object_text(views_of(members@)),
{
    let inner = join(members);
    String::from_str("{").concat(inner.as_str()).concat("}")
}

/// Writes an array with the given items.
pub fn array(items: &Vec<String>) -> (text: String)
    ensures
        text@ == array_text(views_of(items@)),
{
    let inner = join(items);
    String::from_str("[").concat(inner.as_str()).concat("]")
}

/// Writes one line of the log from a version that is quoted already, the
/// name of the event and the items of its data.
pub fn event_line(version: &str, tag: &str, objects: &Vec<String>) -> (line: String)
    ensures
        line@ == event_frame(version@, tag@, views_of(objects@)),
{
    let quoted_tag = String::from_str("\"").concat(tag).concat("\"");
    let data = array(objects);
    let mut members: Vec<String> = Vec::new();
    members.push(member("version", version));
    members.push(member("event", quoted_tag.as_str()));
    members.push(member("data", data.as_str()));
    assert(views_of(members@) =~= seq![
        member_text("version"@, version@),
        member_text("event"@, "\""@ + tag@ + "\""@),
        member_text("data"@, array_text(views_of(objects@))),
    ]);
    let body = object(&members);
    String::from_str("EVENT_JSON:").concat(body.as_str())
}

/// Adds the member for a text, where the text can be written; says whether
/// it could. Where it could not, nothing is added.
pub fn push_text(members: &mut Vec<String>, name: &str, value: &String) -> (ok: bool)
    ensures
        ok == text_member(name@, value@) is Some,
        ok ==> Some(views_of(final(members)@)) == followed_by(
            Some(views_of(old(members)@)),
            text_member(name@, value@),
        ),
        !ok ==> *final(members) == *old(members),
{
    match quote(value.as_str()) {
        Some(text) => {
            members.push(member(name, text.as_str()));
            assert(views_of(members@) =~= views_of(old(members)@) + seq![
                member_text(name@, text@),
            ]);
            true
        },
        None => false,
    }
}

/// Adds the member for a text that is left out where there is none; says
/// whether the text could be written. Where it could not, nothing is added.
pub fn push_skipped(members: &mut Vec<String>, name: &str, value: &Option<String>) -> (ok: bool)
    ensures
        ok == skipped_member(name@, *value) is Some,
        ok ==> Some(views_of(final(members)@)) == followed_by(
            Some(views_of(old(members)@)),
            skipped_member(name@, *value),
        ),
        !ok ==> *final(members) == *old(members),
{
    match value {
        Some(text) => push_text(members, name, text),
        None => {
            assert(views_of(members@) =~= views_of(old(members)@) + Seq::<Seq<char>>::empty());
            true
        },
    }
}

/// Adds the member for a text that is written as `null` where there is
/// none; says whether the text could be written. Where it could not, nothing
/// is added.
pub fn push_nullable(members: &mut Vec<String>, name: &str, value: &Option<String>) -> (ok: bool)
    ensures
        ok == nullable_member(name@, *value) is Some,
        ok ==> Some(views_of(final(members)@)) == followed_by(
            Some(views_of(old(members)@)),
            nullable_member(name@, *value),
        ),
        !ok ==> *final(members) == *old(members),
{
    match value {
        Some(text) => push_text(members, name, text),
        None => {
            members.push(member(name, "null"));
            assert(views_of(members@) =~= views_of(old(members)@) + seq![
                member_text(name@, "null"@),
            ]);
            true
        },
    }
}

/// A record that can be written as a JSON object.
pub trait ToJson {
    /// The JSON text of the record, where each of its texts can be written.
    spec fn json_of(&self) -> Option<Seq<char>>;

    /// Writes the record, or nothing where one of its texts cannot be written.
    fn to_json(&self) -> (r: Option<String>)
        ensures
            written(r) == self.json_of(),
    ;
}

/// The JSON texts of the records of `data`, in order, where each of them can
/// be written.
pub open spec fn objects_of<T: ToJson>(data: Seq<T>) -> Option<Seq<Seq<char>>> {
    if forall|i: int| 0 <= i < data.len() ==> (#[trigger] data[i]).json_of() is Some {
        Some(data.map_values(|record: T| record.json_of()->0))
    } else {
        None
    }
}

/// The texts of a list of texts that may be missing.
pub open spec fn written_all(texts: Option<Vec<String>>) -> Option<Seq<Seq<char>>> {
    match texts {
        Some(texts) => Some(views_of(texts@)),
        None => None,
    }
}

/// Writes each record of `data`, or nothing where one of them cannot be written.
pub fn to_json_all<T: ToJson>(data: &Vec<T>) -> (r: Option<Vec<String>>)
    ensures
        written_all(r) == objects_of(data@),
{
    let mut objects: Vec<String> = Vec::new();
    let mut i: usize = 0;
    while i < data.len()
        invariant
            i <= data.len(),
            objects@.len() == i,
            forall|j: int| 0 <= j < i ==> (#[trigger] data@[j]).json_of() == Some(objects@[j]@),
        decreases data.len() - i,
    {
        match data[i].to_json() {
            Some(text) => {
                objects.push(text);
            },
            None => {
                assert(data@[i as int].json_of() is None);
                return None;
            },
        }
        i += 1;
    }
    assert(views_of(objects@) =~= data@.map_values(|record: T| record.json_of()->0));
    Some(objects)
}

} // verus!
