//! The record model: a log entry as it is stored and returned, the two requests
//! that clients send, and how each is read from and written as JSON.

use vstd::prelude::*;
use crate::error::ErrorKind;
use crate::error::ErrorView;
use crate::error::StoreError;
use crate::json::field;
use crate::json::lookup;
use crate::json::JsonNumber;
use crate::json::JsonTree;
use crate::json::NumberView;
use crate::json::JsonValue;

verus! {

/// A log entry. `id` is set once the entry has been persisted, and is then the
/// id that the database gave its row.
#[derive(Clone, Debug, PartialEq, Eq)]
pub struct NightOwlLog {
    pub id: Option<i64>,
    pub tag: String,
    pub message: String,
    pub data: JsonValue,
}

/// Mathematical model of a [`NightOwlLog`].
pub ghost struct LogView {
    pub id: Option<i64>,
    pub tag: Seq<char>,
    pub message: Seq<char>,
    pub data: JsonTree,
}

impl View for NightOwlLog {
    type V = LogView;

    open spec fn view(&self) -> LogView {
        LogView { id: self.id, tag: self.tag@, message: self.message@, data: self.data@ }
    }
}

/// The request to add an entry: an entry without its id.
#[derive(Clone, Debug, PartialEq, Eq)]
pub struct AddNightOwlLog {
    pub tag: String,
    pub message: String,
    pub data: JsonValue,
}

/// Mathematical model of an [`AddNightOwlLog`].
pub ghost struct AddView {
    pub tag: Seq<char>,
    pub message: Seq<char>,
    pub data: JsonTree,
}

impl View for AddNightOwlLog {
    type V = AddView;

    open spec fn view(&self) -> AddView {
        AddView { tag: self.tag@, message: self.message@, data: self.data@ }
    }
}

/// The request for the entries of one tag.
#[derive(Clone, Debug, PartialEq, Eq)]
pub struct GetNightOwlLog {
    pub tag: String,
}

impl View for GetNightOwlLog {
    type V = Seq<char>;

    open spec fn view(&self) -> Seq<char> {
        self.tag@
    }
}

/// The failure that a request of the wrong shape is answered with.
pub open spec fn malformed(message: Seq<char>) -> ErrorView {
    ErrorView { kind: ErrorKind::MalformedRequest, message }
}

/// The text of the member `key` of `body`, which has to be there and to be a
/// string.
pub open spec fn required_text(body: JsonTree, key: Seq<char>, missing: Seq<char>, wrong: Seq<char>) -> Result<Seq<char>, ErrorView> {
    match field(body, key) {
        None => Err(malformed(missing)),
        Some(JsonTree::String(s)) => Ok(s),
        Some(_) => Err(malformed(wrong)),
    }
}

/// The request to add an entry that a JSON body describes: an object with the
/// strings `tag` and `message` and any value `data`. Other members are ignored.
pub open spec fn add_request(body: JsonTree) -> Result<AddView, ErrorView> {
    if !(body is Object) {
        Err(malformed("request body must be a JSON object"@))
    } else {
        match required_text(body, "tag"@, "missing field `tag`"@, "field `tag` must be a string"@) {
            Err(e) => Err(e),
            Ok(tag) => match required_text(
                body,
                "message"@,
                "missing field `message`"@,
                "field `message` must be a string"@,
            ) {
                Err(e) => Err(e),
                Ok(message) => match field(body, "data"@) {
                    None => Err(malformed("missing field `data`"@)),
                    Some(data) => Ok(AddView { tag, message, data }),
                },
            },
        }
    }
}

/// The request for the entries of a tag that a JSON body describes: an object
/// with the string `tag`. Other members are ignored.
pub open spec fn get_request(body: JsonTree) -> Result<Seq<char>, ErrorView> {
    if !(body is Object) {
        Err(malformed("request body must be a JSON object"@))
    } else {
        required_text(body, "tag"@, "missing field `tag`"@, "field `tag` must be a string"@)
    }
}

/// The JSON object that stands for a request to add an entry.
pub open spec fn add_json(log: AddView) -> JsonTree {
    JsonTree::Object(
        seq![
            ("tag"@, JsonTree::String(log.tag)),
            ("message"@, JsonTree::String(log.message)),
            ("data"@, log.data),
        ],
    )
}

/// The JSON value that stands for an entry's id.
pub open spec fn id_json(id: Option<i64>) -> JsonTree {
    match id {
        Some(n) => JsonTree::Number(NumberView::Int(n as int)),
        None => JsonTree::Null,
    }
}

/// The JSON object that stands for an entry.
pub open spec fn log_json(log: LogView) -> JsonTree {
    JsonTree::Object(
        seq![
            ("id"@, id_json(log.id)),
            ("tag"@, JsonTree::String(log.tag)),
            ("message"@, JsonTree::String(log.message)),
            ("data"@, log.data),
        ],
    )
}

/// The JSON object with the members `tag`, `message` and `data`.
pub fn record_json(tag: &String, message: &String, data: &JsonValue) -> (r: JsonValue)
    ensures
        r@ == add_json(AddView { tag: tag@, message: message@, data: data@ }),
{
    let mut members: Vec<(String, JsonValue)> = Vec::new();
    members.push(("tag".to_owned(), JsonValue::text(tag.as_str())));
    members.push(("message".to_owned(), JsonValue::text(message.as_str())));
    members.push(("data".to_owned(), data.clone()));
    let r = JsonValue::Object(members);
    assert(r@->Object_0 =~= add_json(
        AddView { tag: tag@, message: message@, data: data@ },
    )->Object_0);
    r
}

/// Reads the member `key` of `body` as a string, with the messages to report
/// when it is absent or no string.
fn read_text(body: &JsonValue, key: &str, missing: &str, wrong: &str) -> (r: Result<String, StoreError>)
    ensures
        match r {
            Ok(s) => required_text(body@, key@, missing@, wrong@) == Ok::<Seq<char>, ErrorView>(s@),
            Err(e) => required_text(body@, key@, missing@, wrong@) == Err::<Seq<char>, ErrorView>(e@),
        },
{
    match body.get(key) {
        None => Err(StoreError::new(ErrorKind::MalformedRequest, missing)),
        Some(v) => match v.as_text() {
            Some(s) => Ok(s.clone()),
            None => Err(StoreError::new(ErrorKind::MalformedRequest, wrong)),
        },
    }
}

impl AddNightOwlLog {
    /// Reads a request to add an entry from the JSON body that describes it.
    pub fn from_json(body: &JsonValue) -> (r: Result<AddNightOwlLog, StoreError>)
        ensures
            match r {
                Ok(log) => add_request(body@) == Ok::<AddView, ErrorView>(log@),
                Err(e) => add_request(body@) == Err::<AddView, ErrorView>(e@),
            },
    {
        match body {
            JsonValue::Object(_) => {},
            _ => {
                return Err(
                    StoreError::new(ErrorKind::MalformedRequest, "request body must be a JSON object"),
                );
            },
        }
        let tag = match read_text(body, "tag", "missing field `tag`", "field `tag` must be a string") {
            Ok(s) => s,
            Err(e) => {
                return Err(e);
            },
        };
        let message = match read_text(
            body,
            "message",
            "missing field `message`",
            "field `message` must be a string",
        ) {
            Ok(s) => s,
            Err(e) => {
                return Err(e);
            },
        };
        match body.get("data") {
            None => Err(StoreError::new(ErrorKind::MalformedRequest, "missing field `data`")),
            Some(data) => Ok(AddNightOwlLog { tag, message, data: data.clone() }),
        }
    }

    /// The JSON object that stands for this request.
    pub fn to_json(&self) -> (r: JsonValue)
        ensures
            r@ == add_json(self@),
    {
        record_json(&self.tag, &self.message, &self.data)
    }
}

/// A request to add an entry that was written as JSON is read back as it was.
pub proof fn add_request_of_its_json(log: AddView)
    ensures
        add_request(add_json(log)) == Ok::<AddView, ErrorView>(log),
{
    reveal_strlit("tag");
    reveal_strlit("message");
    reveal_strlit("data");
    assert("tag"@[0] == 't' && "message"@[0] == 'm' && "data"@[0] == 'd');
    reveal_with_fuel(lookup, 4);
}

impl GetNightOwlLog {
    /// Reads a request for the entries of a tag from the JSON body that
    /// describes it.
    pub fn from_json(body: &JsonValue) -> (r: Result<GetNightOwlLog, StoreError>)
        ensures
            match r {
                Ok(item) => get_request(body@) == Ok::<Seq<char>, ErrorView>(item@),
                Err(e) => get_request(body@) == Err::<Seq<char>, ErrorView>(e@),
            },
    {
        match body {
            JsonValue::Object(_) => {},
            _ => {
                return Err(
                    StoreError::new(ErrorKind::MalformedRequest, "request body must be a JSON object"),
                );
            },
        }
        match read_text(body, "tag", "missing field `tag`", "field `tag` must be a string") {
            Ok(tag) => Ok(GetNightOwlLog { tag }),
            Err(e) => Err(e),
        }
    }
}

impl NightOwlLog {
    /// The JSON object that stands for this entry.
    pub fn to_json(&self) -> (r: JsonValue)
        ensures
            r@ == log_json(self@),
    {
        let id = match self.id {
            Some(n) => JsonValue::Number(JsonNumber::Int(n as i128)),
            None => JsonValue::Null,
        };
        assert(id@ == id_json(self.id));
        let mut members: Vec<(String, JsonValue)> = Vec::new();
        members.push(("id".to_owned(), id));
        members.push(("tag".to_owned(), JsonValue::text(self.tag.as_str())));
        members.push(("message".to_owned(), JsonValue::text(self.message.as_str())));
        members.push(("data".to_owned(), self.data.clone()));
        let r = JsonValue::Object(members);
        assert(r@->Object_0 =~= log_json(self@)->Object_0);
        r
    }
}

} // verus!
