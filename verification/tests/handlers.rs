use night_owl::error::ErrorKind;
use night_owl::error::StoreError;
use night_owl::handlers::add_failure_response;
use night_owl::handlers::add_log;
use night_owl::handlers::added_response;
use night_owl::handlers::begin_add;
use night_owl::handlers::begin_get;
use night_owl::handlers::failure_response;
use night_owl::handlers::get_log;
use night_owl::handlers::hello_world;
use night_owl::handlers::listed_response;
use night_owl::handlers::plan_add;
use night_owl::handlers::plan_get;
use night_owl::handlers::AddStep;
use night_owl::handlers::GetStep;
use night_owl::handlers::Response;
use night_owl::json::JsonNumber;
use night_owl::json::JsonValue;
use night_owl::models::AddNightOwlLog;
use night_owl::models::GetNightOwlLog;
use night_owl::models::NightOwlLog;
use night_owl::store::NewRow;
use night_owl::store::StoreReply;
use night_owl::store::StoredRow;

fn text(s: &str) -> JsonValue {
    JsonValue::text(s)
}

fn num(n: i128) -> JsonValue {
    JsonValue::Number(JsonNumber::Int(n))
}

fn object(members: Vec<(&str, JsonValue)>) -> JsonValue {
    JsonValue::Object(members.into_iter().map(|(k, v)| (k.to_string(), v)).collect())
}

fn error_body(message: &str) -> JsonValue {
    object(vec![("status", text("error")), ("message", text(message))])
}

fn client_error(message: &str) -> Response {
    Response { status: 400, body: error_body(message) }
}

fn server_error(message: &str) -> Response {
    Response { status: 500, body: error_body(message) }
}

fn night_request() -> AddNightOwlLog {
    AddNightOwlLog {
        tag: "night".to_string(),
        message: "owl seen".to_string(),
        data: object(vec![("count", num(1))]),
    }
}

fn row(id: i64, tag: &str, message: &str, data: &str) -> StoredRow {
    StoredRow { id, tag: tag.to_string(), message: message.to_string(), data: data.to_string() }
}

#[test]
fn hello_world_acknowledges() {
    let r = hello_world();
    assert_eq!(r, Response { status: 200, body: text("Hello World") });
    assert_eq!(r.body_text().unwrap(), "\"Hello World\"");
}

#[test]
fn failure_response_of_a_malformed_request_is_a_client_error() {
    let e = StoreError::new(ErrorKind::MalformedRequest, "missing field `tag`");
    assert_eq!(failure_response(&e), client_error("missing field `tag`"));
}

#[test]
fn failure_response_of_a_storage_failure_is_a_server_error() {
    for kind in vec![ErrorKind::StorageWriteError, ErrorKind::StorageReadError, ErrorKind::StorageUnavailable] {
        let e = StoreError::new(kind, "disk I/O error");
        assert_eq!(failure_response(&e), server_error("disk I/O error"));
    }
}

#[test]
fn failure_response_of_a_failed_lock_has_status_and_message_alone() {
    let e = StoreError::new(ErrorKind::StorageLockError, "poisoned lock");
    let r = failure_response(&e);
    assert_eq!(r, server_error("Failed to acquire database lock"));
    assert_eq!(
        r.body_text().unwrap(),
        "{\"message\":\"Failed to acquire database lock\",\"status\":\"error\"}"
    );
}

#[test]
fn add_failure_response_of_a_failed_lock_names_the_cause() {
    let e = StoreError::new(ErrorKind::StorageLockError, "poisoned lock");
    let r = add_failure_response(&e);
    assert_eq!(
        r,
        Response {
            status: 500,
            body: object(vec![
                ("status", text("error")),
                ("message", text("Failed to acquire database lock")),
                ("error", text("poisoned lock")),
            ]),
        }
    );
    assert_eq!(
        r.body_text().unwrap(),
        "{\"error\":\"poisoned lock\",\"message\":\"Failed to acquire database lock\",\"status\":\"error\"}"
    );
}

#[test]
fn add_failure_response_of_any_other_failure_is_the_plain_one() {
    assert_eq!(
        add_failure_response(&StoreError::new(ErrorKind::MalformedRequest, "missing field `tag`")),
        client_error("missing field `tag`")
    );
    for kind in vec![ErrorKind::StorageWriteError, ErrorKind::StorageReadError, ErrorKind::StorageUnavailable] {
        assert_eq!(add_failure_response(&StoreError::new(kind, "disk I/O error")), server_error("disk I/O error"));
    }
}

#[test]
fn wire_gives_status_and_text() {
    assert_eq!(hello_world().wire(), (200, "\"Hello World\"".to_string()));
    assert_eq!(
        client_error("missing field `tag`").wire(),
        (400, "{\"message\":\"missing field `tag`\",\"status\":\"error\"}".to_string())
    );
}

#[test]
fn wire_of_a_body_that_is_no_json_is_a_server_error() {
    let r = Response { status: 200, body: JsonValue::Number(JsonNumber::Float("owl".to_string())) };
    assert_eq!(r.body_text(), None);
    assert_eq!(
        r.wire(),
        (500, "{\"message\":\"response cannot be written\",\"status\":\"error\"}".to_string())
    );
    assert_eq!(
        JsonValue::from_text(&r.wire().1),
        Some(object(vec![("message", text("response cannot be written")), ("status", text("error"))]))
    );
}

#[test]
fn added_response_shows_the_entry_without_its_id() {
    let entry = NightOwlLog {
        id: Some(4),
        tag: "night".to_string(),
        message: "owl seen".to_string(),
        data: object(vec![("count", num(1))]),
    };
    let r = added_response(&entry);
    assert_eq!(r.status, 200);
    assert_eq!(
        r.body,
        object(vec![
            ("status", text("success")),
            ("message", text("Log added successfully")),
            (
                "log",
                object(vec![
                    ("tag", text("night")),
                    ("message", text("owl seen")),
                    ("data", object(vec![("count", num(1))])),
                ])
            ),
        ])
    );
}

#[test]
fn listed_response_shows_the_entries_in_order() {
    let logs = vec![
        NightOwlLog { id: Some(2), tag: "t".to_string(), message: "b".to_string(), data: JsonValue::Null },
        NightOwlLog { id: Some(1), tag: "t".to_string(), message: "a".to_string(), data: num(7) },
    ];
    let r = listed_response(&logs);
    assert_eq!(r.status, 200);
    assert_eq!(
        r.body,
        JsonValue::Array(vec![
            object(vec![("id", num(2)), ("tag", text("t")), ("message", text("b")), ("data", JsonValue::Null)]),
            object(vec![("id", num(1)), ("tag", text("t")), ("message", text("a")), ("data", num(7))]),
        ])
    );
    assert_eq!(
        r.body_text().unwrap(),
        "[{\"data\":null,\"id\":2,\"message\":\"b\",\"tag\":\"t\"},{\"data\":7,\"id\":1,\"message\":\"a\",\"tag\":\"t\"}]"
    );
}

#[test]
fn listed_response_of_no_entries_is_an_empty_array() {
    let r = listed_response(&vec![]);
    assert_eq!(r, Response { status: 200, body: JsonValue::Array(vec![]) });
    assert_eq!(r.body_text().unwrap(), "[]");
}

#[test]
fn begin_add_asks_for_the_row_to_be_written() {
    let step = begin_add("{\"tag\":\"night\",\"message\":\"owl seen\",\"data\":{\"count\":1}}");
    assert_eq!(
        step,
        AddStep::Insert(
            night_request(),
            NewRow {
                tag: "night".to_string(),
                message: "owl seen".to_string(),
                data: "{\"count\":1}".to_string(),
            }
        )
    );
}

#[test]
fn begin_add_stores_data_in_canonical_form() {
    let step = begin_add("{ \"data\": {\"b\": [1, 2.50], \"a\": null}, \"message\": \"m\", \"tag\": \"t\" }");
    match step {
        AddStep::Insert(_, row) => assert_eq!(row.data, "{\"a\":null,\"b\":[1,2.5]}"),
        AddStep::Respond(r) => panic!("answered at once: {:?}", r),
    }
}

#[test]
fn begin_add_without_tag_is_a_client_error_and_writes_nothing() {
    assert_eq!(
        begin_add("{\"message\":\"owl seen\",\"data\":{\"count\":1}}"),
        AddStep::Respond(client_error("missing field `tag`"))
    );
}

#[test]
fn begin_add_with_a_fault_in_a_field_is_a_client_error() {
    assert_eq!(
        begin_add("{\"tag\":7,\"message\":\"m\",\"data\":1}"),
        AddStep::Respond(client_error("field `tag` must be a string"))
    );
    assert_eq!(
        begin_add("{\"tag\":\"t\",\"data\":1}"),
        AddStep::Respond(client_error("missing field `message`"))
    );
    assert_eq!(
        begin_add("{\"tag\":\"t\",\"message\":null,\"data\":1}"),
        AddStep::Respond(client_error("field `message` must be a string"))
    );
    assert_eq!(
        begin_add("{\"tag\":\"t\",\"message\":\"m\"}"),
        AddStep::Respond(client_error("missing field `data`"))
    );
}

#[test]
fn begin_add_of_what_is_no_json_is_a_client_error() {
    for raw in vec!["", "tag=night", "{\"tag\":\"night\"", "{'tag':'night'}"] {
        assert_eq!(begin_add(raw), AddStep::Respond(client_error("request body is not valid JSON")));
    }
}

#[test]
fn begin_add_of_what_is_no_object_is_a_client_error() {
    for raw in vec!["null", "\"night\"", "[\"night\",\"owl seen\",{}]", "3"] {
        assert_eq!(begin_add(raw), AddStep::Respond(client_error("request body must be a JSON object")));
    }
}

#[test]
fn plan_add_refuses_data_that_would_not_read_back() {
    let body = object(vec![
        ("tag", text("t")),
        ("message", text("m")),
        ("data", JsonValue::Number(JsonNumber::Float("1.50".to_string()))),
    ]);
    assert_eq!(
        plan_add(&Some(body)),
        AddStep::Respond(server_error("data cannot be stored without loss"))
    );
}

#[test]
fn plan_add_without_a_body_is_a_client_error() {
    assert_eq!(plan_add(&None), AddStep::Respond(client_error("request body is not valid JSON")));
}

#[test]
fn add_log_answers_success_with_the_entry() {
    let r = add_log(&night_request(), StoreReply::Done(1));
    assert_eq!(r.status, 200);
    assert_eq!(
        JsonValue::from_text(&r.body_text().unwrap()),
        JsonValue::from_text(
            "{\"status\":\"success\",\"message\":\"Log added successfully\",\"log\":{\"tag\":\"night\",\"message\":\"owl seen\",\"data\":{\"count\":1}}}"
        )
    );
}

#[test]
fn add_log_success_goes_over_the_wire_with_members_by_name() {
    let r = add_log(&night_request(), StoreReply::Done(1));
    assert_eq!(
        r.body_text().unwrap(),
        "{\"log\":{\"data\":{\"count\":1},\"message\":\"owl seen\",\"tag\":\"night\"},\"message\":\"Log added successfully\",\"status\":\"success\"}"
    );
}

#[test]
fn add_log_answers_a_failed_write_with_its_message() {
    let r = add_log(&night_request(), StoreReply::Failed("database is locked".to_string()));
    assert_eq!(r, server_error("database is locked"));
    assert_eq!(r.body_text().unwrap(), "{\"message\":\"database is locked\",\"status\":\"error\"}");
}

#[test]
fn add_log_answers_a_failed_lock() {
    let r = add_log(&night_request(), StoreReply::LockFailed("poisoned lock".to_string()));
    assert_eq!(r.status, 500);
    assert_eq!(r.body.get("message"), Some(&text("Failed to acquire database lock")));
    assert_eq!(r.body.get("error"), Some(&text("poisoned lock")));
}

#[test]
fn add_log_answers_success_whatever_id_the_row_was_given() {
    let expected = add_log(&night_request(), StoreReply::Done(1));
    for id in vec![2147483647, 2147483648, 1 << 40, i64::MAX, -1, i64::MIN] {
        let r = add_log(&night_request(), StoreReply::Done(id));
        assert_eq!(r.status, 200);
        assert_eq!(r, expected);
    }
}

#[test]
fn add_log_answers_200_exactly_where_the_row_was_written() {
    assert_eq!(add_log(&night_request(), StoreReply::Done(7)).status, 200);
    assert_eq!(add_log(&night_request(), StoreReply::Failed("disk I/O error".to_string())).status, 500);
    assert_eq!(add_log(&night_request(), StoreReply::LockFailed("poisoned lock".to_string())).status, 500);
}

#[test]
fn begin_get_asks_for_the_rows_of_the_tag() {
    assert_eq!(begin_get("{\"tag\":\"night\"}"), GetStep::Query(GetNightOwlLog { tag: "night".to_string() }));
    assert_eq!(
        begin_get("{\"tag\":\"\",\"limit\":5}"),
        GetStep::Query(GetNightOwlLog { tag: String::new() })
    );
}

#[test]
fn begin_get_of_a_malformed_request_is_a_client_error() {
    assert_eq!(begin_get("{}"), GetStep::Respond(client_error("missing field `tag`")));
    assert_eq!(begin_get("{\"tag\":[]}"), GetStep::Respond(client_error("field `tag` must be a string")));
    assert_eq!(begin_get("[]"), GetStep::Respond(client_error("request body must be a JSON object")));
    assert_eq!(begin_get("{"), GetStep::Respond(client_error("request body is not valid JSON")));
}

#[test]
fn plan_get_without_a_body_is_a_client_error() {
    assert_eq!(plan_get(&None), GetStep::Respond(client_error("request body is not valid JSON")));
}

#[test]
fn get_log_answers_with_the_entries() {
    let item = GetNightOwlLog { tag: "night".to_string() };
    let r = get_log(&item, StoreReply::Done(vec![row(1, "night", "owl seen", "{\"count\":1}")]));
    assert_eq!(r.status, 200);
    assert_eq!(
        JsonValue::from_text(&r.body_text().unwrap()),
        JsonValue::from_text("[{\"id\":1,\"tag\":\"night\",\"message\":\"owl seen\",\"data\":{\"count\":1}}]")
    );
}

#[test]
fn get_log_answers_no_rows_with_an_empty_array() {
    let item = GetNightOwlLog { tag: "unused".to_string() };
    let r = get_log(&item, StoreReply::Done(vec![]));
    assert_eq!(r, Response { status: 200, body: JsonValue::Array(vec![]) });
}

#[test]
fn get_log_answers_a_corrupted_row_with_a_server_error() {
    let item = GetNightOwlLog { tag: "night".to_string() };
    let r = get_log(&item, StoreReply::Done(vec![row(1, "night", "ok", "1"), row(2, "night", "bad", "{")]));
    assert_eq!(r, server_error("stored data is corrupted"));
}

#[test]
fn get_log_answers_a_failed_read_and_a_failed_lock() {
    let item = GetNightOwlLog { tag: "night".to_string() };
    assert_eq!(
        get_log(&item, StoreReply::Failed("no such table: NightOwlLog".to_string())),
        server_error("no such table: NightOwlLog")
    );
    let r = get_log(&item, StoreReply::LockFailed("poisoned lock".to_string()));
    assert_eq!(r, server_error("Failed to acquire database lock"));
    assert_eq!(r.body.get("error"), None);
}
