//! The request handlers. Each turns one request into one operation of the
//! storage gateway and the gateway's answer into one response. A handler that
//! needs the database works in two steps: the first reads the request and says
//! what is to be run, the second takes the database's reply and answers.

use vstd::prelude::*;
use crate::codec::parsed;
use crate::codec::printed;
use crate::error::ErrorKind;
use crate::error::ErrorView;
use crate::error::StoreError;
use crate::json::field;
use crate::json::JsonTree;
use crate::json::JsonValue;
use crate::models::add_json;
use crate::models::add_request;
use crate::models::get_request;
use crate::models::log_json;
use crate::models::malformed;
use crate::models::record_json;
use crate::models::AddNightOwlLog;
use crate::models::AddView;
use crate::models::GetNightOwlLog;
use crate::models::LogView;
use crate::models::NightOwlLog;
use crate::store::get_logs_by_tag;
use crate::store::insert_log;
use crate::store::insert_result;
use crate::store::inserted;
use crate::store::lock_error;
use crate::store::log_views;
use crate::store::new_row;
use crate::store::prepare_insert;
use crate::store::query_result;
use crate::store::NewRow;
use crate::store::NewRowView;
use crate::store::StoreReply;
use crate::store::StoredRow;

verus! {

/// What is sent back: an HTTP status and a JSON body.
#[derive(Clone, Debug, PartialEq, Eq)]
pub struct Response {
    pub status: u16,
    pub body: JsonValue,
}

/// Mathematical model of a [`Response`].
pub ghost struct ResponseView {
    pub status: u16,
    pub body: JsonTree,
}

impl View for Response {
    type V = ResponseView;

    open spec fn view(&self) -> ResponseView {
        ResponseView { status: self.status, body: self.body@ }
    }
}

/// What goes over the wire for a response: its status and the text of its body.
/// A body that holds what is no JSON has no text; in its place goes a fixed
/// server error.
pub open spec fn on_the_wire(r: ResponseView) -> (u16, Seq<char>) {
    match printed(r.body) {
        Some(text) => (r.status, text),
        None => (500, "{\"message\":\"response cannot be written\",\"status\":\"error\"}"@),
    }
}

impl Response {
    /// The body as text; none where the body holds a number that is no JSON
    /// number.
    pub fn body_text(&self) -> (r: Option<String>)
        ensures
            match r {
                Some(s) => printed(self.body@) == Some(s@),
                None => printed(self.body@) is None,
            },
    {
        self.body.to_text()
    }

    /// The status and the text to send.
    pub fn wire(&self) -> (r: (u16, String))
        ensures
            (r.0, r.1@) == on_the_wire(self@),
    {
        match self.body_text() {
            Some(text) => (self.status, text),
            None => (
                500,
                "{\"message\":\"response cannot be written\",\"status\":\"error\"}".to_owned(),
            ),
        }
    }
}

/// The acknowledgement of the health route.
pub open spec fn greeting() -> ResponseView {
    ResponseView { status: 200, body: JsonTree::String("Hello World"@) }
}

/// The answer to an insert that succeeded: the entry as the client sent it.
pub open spec fn added(log: LogView) -> ResponseView {
    ResponseView {
        status: 200,
        body: JsonTree::Object(
            seq![
                ("status"@, JsonTree::String("success"@)),
                ("message"@, JsonTree::String("Log added successfully"@)),
                ("log"@, add_json(AddView { tag: log.tag, message: log.message, data: log.data })),
            ],
        ),
    }
}

/// The answer to a query that succeeded: the entries, in their order.
pub open spec fn listed(logs: Seq<LogView>) -> ResponseView {
    ResponseView {
        status: 200,
        body: JsonTree::Array(Seq::new(logs.len(), |i: int| log_json(logs[i]))),
    }
}

/// The status of the answer to a failure: a malformed request is the client's
/// error, every other failure the server's.
pub open spec fn failure_status(e: ErrorView) -> u16 {
    if e.kind == ErrorKind::MalformedRequest {
        400
    } else {
        500
    }
}

/// The answer to a failure: its status, and a body of `status` and `message`
/// alone. The message is the failure's own, except where the lock was not had:
/// there it says so.
pub open spec fn failure(e: ErrorView) -> ResponseView {
    ResponseView {
        status: failure_status(e),
        body: JsonTree::Object(
            seq![
                ("status"@, JsonTree::String("error"@)),
                (
                    "message"@,
                    JsonTree::String(
                        if e.kind == ErrorKind::StorageLockError {
                            "Failed to acquire database lock"@
                        } else {
                            e.message
                        },
                    ),
                ),
            ],
        ),
    }
}

/// The answer to a failure on the route that adds an entry. It is that of
/// [`failure`], except where the lock was not had: there the cause stands in a
/// third member, `error`.
pub open spec fn add_failure(e: ErrorView) -> ResponseView {
    if e.kind == ErrorKind::StorageLockError {
        ResponseView {
            status: failure_status(e),
            body: JsonTree::Object(
                seq![
                    ("status"@, JsonTree::String("error"@)),
                    ("message"@, JsonTree::String("Failed to acquire database lock"@)),
                    ("error"@, JsonTree::String(e.message)),
                ],
            ),
        }
    } else {
        failure(e)
    }
}

/// Answers the health route: a fixed acknowledgement, with no use of the store.
pub fn hello_world() -> (r: Response)
    ensures
        r@ == greeting(),
{
    Response { status: 200, body: JsonValue::text("Hello World") }
}

/// The response to a failure.
pub fn failure_response(e: &StoreError) -> (r: Response)
    ensures
        r@ == failure(e@),
{
    let status: u16 = match e.kind {
        ErrorKind::MalformedRequest => 400,
        _ => 500,
    };
    let message = match e.kind {
        ErrorKind::StorageLockError => JsonValue::text("Failed to acquire database lock"),
        _ => JsonValue::text(e.message.as_str()),
    };
    let mut members: Vec<(String, JsonValue)> = Vec::new();
    members.push(("status".to_owned(), JsonValue::text("error")));
    members.push(("message".to_owned(), message));
    let body = JsonValue::Object(members);
    assert(body@->Object_0 =~= failure(e@).body->Object_0);
    Response { status, body }
}

/// The response to a failure on the route that adds an entry.
pub fn add_failure_response(e: &StoreError) -> (r: Response)
    ensures
        r@ == add_failure(e@),
{
    match e.kind {
        ErrorKind::StorageLockError => {
            let mut members: Vec<(String, JsonValue)> = Vec::new();
            members.push(("status".to_owned(), JsonValue::text("error")));
            members.push(("message".to_owned(), JsonValue::text("Failed to acquire database lock")));
            members.push(("error".to_owned(), JsonValue::text(e.message.as_str())));
            let body = JsonValue::Object(members);
            assert(body@->Object_0 =~= add_failure(e@).body->Object_0);
            Response { status: 500, body }
        },
        _ => failure_response(e),
    }
}

/// The response to an insert that succeeded.
pub fn added_response(entry: &NightOwlLog) -> (r: Response)
    ensures
        r@ == added(entry@),
{
    let log = record_json(&entry.tag, &entry.message, &entry.data);
    let mut members: Vec<(String, JsonValue)> = Vec::new();
    members.push(("status".to_owned(), JsonValue::text("success")));
    members.push(("message".to_owned(), JsonValue::text("Log added successfully")));
    members.push(("log".to_owned(), log));
    let body = JsonValue::Object(members);
    assert(body@->Object_0 =~= added(entry@).body->Object_0);
    Response { status: 200, body }
}

/// The response to a query that succeeded.
pub fn listed_response(logs: &Vec<NightOwlLog>) -> (r: Response)
    ensures
        r@ == listed(log_views(logs@)),
{
    let mut items: Vec<JsonValue> = Vec::new();
    let mut i: usize = 0;
    while i < logs.len()
        invariant
            i <= logs.len(),
            items@.len() == i,
            forall|j: int| 0 <= j < i ==> (#[trigger] items@[j])@ == log_json(logs@[j]@),
        decreases logs.len() - i,
    {
        items.push(logs[i].to_json());
        i += 1;
    }
    let body = JsonValue::Array(items);
    assert(body@->Array_0 =~= listed(log_views(logs@)).body->Array_0);
    Response { status: 200, body }
}

/// What the first step of an insert comes to.
#[derive(Clone, Debug, PartialEq, Eq)]
pub enum AddStep {
    /// The request is answered at once; nothing is to be written.
    Respond(Response),
    /// The row is to be written with [`crate::store::insert_sql`]; the reply
    /// goes to [`add_log`] together with the request.
    Insert(AddNightOwlLog, NewRow),
}

/// Mathematical model of an [`AddStep`].
pub ghost enum AddStepView {
    Respond(ResponseView),
    Insert(AddView, NewRowView),
}

impl View for AddStep {
    type V = AddStepView;

    open spec fn view(&self) -> AddStepView {
        match self {
            AddStep::Respond(r) => AddStepView::Respond(r@),
            AddStep::Insert(log, row) => AddStepView::Insert(log@, row@),
        }
    }
}

/// What the first step of a query comes to.
#[derive(Clone, Debug, PartialEq, Eq)]
pub enum GetStep {
    /// The request is answered at once; nothing is to be read.
    Respond(Response),
    /// The rows of the tag are to be read with
    /// [`crate::store::select_by_tag_sql`]; the reply goes to [`get_log`]
    /// together with the request.
    Query(GetNightOwlLog),
}

/// Mathematical model of a [`GetStep`].
pub ghost enum GetStepView {
    Respond(ResponseView),
    Query(Seq<char>),
}

impl View for GetStep {
    type V = GetStepView;

    open spec fn view(&self) -> GetStepView {
        match self {
            GetStep::Respond(r) => GetStepView::Respond(r@),
            GetStep::Query(item) => GetStepView::Query(item@),
        }
    }
}

/// The first step of an insert, given the JSON value that the request body
/// holds, if it holds one. A body that is no JSON or not the described request
/// is answered as malformed; a request whose data cannot be stored without
/// loss is answered as a failed write; for any other, its row is to be written.
pub open spec fn add_step(body: Option<JsonTree>) -> AddStepView {
    match body {
        None => AddStepView::Respond(add_failure(malformed("request body is not valid JSON"@))),
        Some(b) => match add_request(b) {
            Err(e) => AddStepView::Respond(add_failure(e)),
            Ok(log) => match new_row(log) {
                Err(e) => AddStepView::Respond(add_failure(e)),
                Ok(row) => AddStepView::Insert(log, row),
            },
        },
    }
}

/// The first step of a query, given the JSON value that the request body
/// holds, if it holds one.
pub open spec fn get_step(body: Option<JsonTree>) -> GetStepView {
    match body {
        None => GetStepView::Respond(failure(malformed("request body is not valid JSON"@))),
        Some(b) => match get_request(b) {
            Err(e) => GetStepView::Respond(failure(e)),
            Ok(tag) => GetStepView::Query(tag),
        },
    }
}

/// A request to add an entry whose body has no member `tag` is answered with a
/// client error, and nothing is to be written for it.
pub proof fn add_without_tag_is_refused(body: Option<JsonTree>)
    requires
        body is None || field(body->0, "tag"@) is None,
    ensures
        add_step(body) is Respond,
        add_step(body)->Respond_0.status == 400,
{
}

/// The first step of an insert, once the body has been read as JSON.
pub fn plan_add(body: &Option<JsonValue>) -> (step: AddStep)
    ensures
        step@ == add_step(
            match body {
                Some(b) => Some(b@),
                None => None,
            },
        ),
{
    match body {
        None => AddStep::Respond(
            add_failure_response(
                &StoreError::new(ErrorKind::MalformedRequest, "request body is not valid JSON"),
            ),
        ),
        Some(b) => match AddNightOwlLog::from_json(b) {
            Err(e) => AddStep::Respond(add_failure_response(&e)),
            Ok(log) => match prepare_insert(&log) {
                Err(e) => AddStep::Respond(add_failure_response(&e)),
                Ok(row) => AddStep::Insert(log, row),
            },
        },
    }
}

/// The first step of a query, once the body has been read as JSON.
pub fn plan_get(body: &Option<JsonValue>) -> (step: GetStep)
    ensures
        step@ == get_step(
            match body {
                Some(b) => Some(b@),
                None => None,
            },
        ),
{
    match body {
        None => GetStep::Respond(
            failure_response(
                &StoreError::new(ErrorKind::MalformedRequest, "request body is not valid JSON"),
            ),
        ),
        Some(b) => match GetNightOwlLog::from_json(b) {
            Err(e) => GetStep::Respond(failure_response(&e)),
            Ok(item) => GetStep::Query(item),
        },
    }
}

/// The first step of an insert: reads the request from the raw body. A body
/// without a member `tag` is answered with a client error, and nothing is
/// written for it.
pub fn begin_add(raw: &str) -> (step: AddStep)
    ensures
        step@ == add_step(parsed(raw@)),
        parsed(raw@) is None || field(parsed(raw@)->0, "tag"@) is None ==> step is Respond
            && step->Respond_0.status == 400,
{
    let body = JsonValue::from_text(raw);
    plan_add(&body)
}

/// The first step of a query: reads the request from the raw body.
pub fn begin_get(raw: &str) -> (step: GetStep)
    ensures
        step@ == get_step(parsed(raw@)),
{
    let body = JsonValue::from_text(raw);
    plan_get(&body)
}

/// The second step of an insert: answers the request `log`, given what came of
/// writing its row. Where the row was written the answer is the success with
/// the entry, whatever id the row was given; where it was not, the answer is
/// the failure with its message.
pub fn add_log(log: &AddNightOwlLog, reply: StoreReply<i64>) -> (r: Response)
    ensures
        r@ == match insert_result(log@, reply) {
            Ok(entry) => added(entry),
            Err(e) => add_failure(e),
        },
        reply is Done ==> r@ == added(inserted(log@, reply->Done_0)),
        r.status == 200 <==> reply is Done,
        r.status == 500 <==> !(reply is Done),
{
    match insert_log(log, reply) {
        Ok(entry) => added_response(&entry),
        Err(e) => add_failure_response(&e),
    }
}

/// The second step of a query: answers the request `item`, given what came of
/// reading the rows of its tag. Success is answered with the entries, which
/// may be none, any failure with a body of `status` and `message` alone.
pub fn get_log(item: &GetNightOwlLog, reply: StoreReply<Vec<StoredRow>>) -> (r: Response)
    ensures
        r@ == match query_result(item@, reply) {
            Ok(logs) => listed(logs),
            Err(e) => failure(e),
        },
        reply is LockFailed ==> r@ == failure(lock_error(reply->LockFailed_0@)),
{
    match get_logs_by_tag(item.tag.as_str(), reply) {
        Ok(logs) => listed_response(&logs),
        Err(e) => failure_response(&e),
    }
}

} // verus!
