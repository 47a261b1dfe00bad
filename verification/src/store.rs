//! The storage gateway: the statements that the log table is kept with, what
//! goes into a row, and what is made of whatever the database answers. The
//! owner of the connection runs the statements under its lock and reports the
//! outcome as a [`StoreReply`].

use vstd::prelude::*;
use crate::codec::deserialize;
use crate::codec::deserialized;
use crate::codec::round_trip;
use crate::codec::serialize;
use crate::codec::serialized;
use crate::error::ErrorKind;
use crate::error::ErrorView;
use crate::error::StoreError;
use crate::json::JsonTree;
use crate::json::JsonValue;
use crate::models::AddNightOwlLog;
use crate::models::AddView;
use crate::models::LogView;
use crate::models::NightOwlLog;

verus! {

/// A row of the log table, as the database returns it.
#[derive(Clone, Debug, PartialEq, Eq)]
pub struct StoredRow {
    pub id: i64,
    pub tag: String,
    pub message: String,
    pub data: String,
}

/// Mathematical model of a [`StoredRow`].
pub ghost struct RowView {
    pub id: i64,
    pub tag: Seq<char>,
    pub message: Seq<char>,
    pub data: Seq<char>,
}

impl View for StoredRow {
    type V = RowView;

    open spec fn view(&self) -> RowView {
        RowView { id: self.id, tag: self.tag@, message: self.message@, data: self.data@ }
    }
}

/// The three values that are bound to the insert statement, in its order.
#[derive(Clone, Debug, PartialEq, Eq)]
pub struct NewRow {
    pub tag: String,
    pub message: String,
    pub data: String,
}

/// Mathematical model of a [`NewRow`].
pub ghost struct NewRowView {
    pub tag: Seq<char>,
    pub message: Seq<char>,
    pub data: Seq<char>,
}

impl View for NewRow {
    type V = NewRowView;

    open spec fn view(&self) -> NewRowView {
        NewRowView { tag: self.tag@, message: self.message@, data: self.data@ }
    }
}

/// What came of one operation on the database.
#[derive(Clone, Debug, PartialEq, Eq)]
pub enum StoreReply<T> {
    /// Exclusive access was not had; the statement did not run.
    LockFailed(String),
    /// The statement ran and failed.
    Failed(String),
    /// The statement ran; this is what it gave.
    Done(T),
}

/// The failure to get exclusive access to the store.
pub open spec fn lock_error(message: Seq<char>) -> ErrorView {
    ErrorView { kind: ErrorKind::StorageLockError, message }
}

/// The failure to write a row.
pub open spec fn write_error(message: Seq<char>) -> ErrorView {
    ErrorView { kind: ErrorKind::StorageWriteError, message }
}

/// The failure to read rows, or to make sense of one that was read.
pub open spec fn read_error(message: Seq<char>) -> ErrorView {
    ErrorView { kind: ErrorKind::StorageReadError, message }
}

/// The failure to open the store or to set up its table.
pub open spec fn unavailable(message: Seq<char>) -> ErrorView {
    ErrorView { kind: ErrorKind::StorageUnavailable, message }
}

/// The statement that sets up the log table where there is none yet.
pub fn create_table_sql() -> (sql: &'static str)
    ensures
        sql@ == "CREATE TABLE IF NOT EXISTS NightOwlLog (id INTEGER PRIMARY KEY AUTOINCREMENT, tag TEXT NOT NULL, message TEXT NOT NULL, data TEXT NOT NULL)"@,
{
    "CREATE TABLE IF NOT EXISTS NightOwlLog (id INTEGER PRIMARY KEY AUTOINCREMENT, tag TEXT NOT NULL, message TEXT NOT NULL, data TEXT NOT NULL)"
}

/// The statement that appends a row; its parameters are those of a [`NewRow`].
pub fn insert_sql() -> (sql: &'static str)
    ensures
        sql@ == "INSERT INTO NightOwlLog (tag, message, data) VALUES (?1, ?2, ?3)"@,
{
    "INSERT INTO NightOwlLog (tag, message, data) VALUES (?1, ?2, ?3)"
}

/// The statement that selects the rows of one tag; its parameter is the tag.
pub fn select_by_tag_sql() -> (sql: &'static str)
    ensures
        sql@ == "SELECT id, tag, message, data FROM NightOwlLog WHERE tag = ?1"@,
{
    "SELECT id, tag, message, data FROM NightOwlLog WHERE tag = ?1"
}

/// Settles whether the store is ready, given what came of opening it and
/// running [`create_table_sql`]: the opened store on success, the database's
/// message on failure. A store that is not ready is unavailable.
pub fn initialize_db<T>(outcome: Result<T, String>) -> (r: Result<T, StoreError>)
    ensures
        match outcome {
            Ok(store) => r == Ok::<T, StoreError>(store),
            Err(m) => r is Err && r->Err_0@ == unavailable(m@),
        },
{
    match outcome {
        Ok(store) => Ok(store),
        Err(m) => Err(StoreError { kind: ErrorKind::StorageUnavailable, message: m }),
    }
}

/// The row that is written for a request: its tag and message, and its data as
/// stored text. A request whose data has no stored text gets no row.
pub open spec fn new_row(log: AddView) -> Result<NewRowView, ErrorView> {
    match serialized(log.data) {
        Some(text) => Ok(NewRowView { tag: log.tag, message: log.message, data: text }),
        None => Err(write_error("data cannot be stored without loss"@)),
    }
}

/// The values to bind to [`insert_sql`] for a request.
pub fn prepare_insert(log: &AddNightOwlLog) -> (r: Result<NewRow, StoreError>)
    ensures
        match r {
            Ok(row) => new_row(log@) == Ok::<NewRowView, ErrorView>(row@),
            Err(e) => new_row(log@) == Err::<NewRowView, ErrorView>(e@),
        },
{
    match serialize(&log.data) {
        Some(text) => Ok(NewRow { tag: log.tag.clone(), message: log.message.clone(), data: text }),
        None => Err(
            StoreError::new(ErrorKind::StorageWriteError, "data cannot be stored without loss"),
        ),
    }
}

/// The entry that was persisted when the database assigned `id` to the row of
/// `log`.
pub open spec fn inserted(log: AddView, id: i64) -> LogView {
    LogView { id: Some(id), tag: log.tag, message: log.message, data: log.data }
}

/// What an insert comes to, for each reply of the database: the persisted entry
/// where the row was written, a failure where it was not.
pub open spec fn insert_result(log: AddView, reply: StoreReply<i64>) -> Result<LogView, ErrorView> {
    match reply {
        StoreReply::LockFailed(m) => Err(lock_error(m@)),
        StoreReply::Failed(m) => Err(write_error(m@)),
        StoreReply::Done(id) => Ok(inserted(log, id)),
    }
}

/// Completes an insert: `reply` is what came of running [`insert_sql`] with the
/// values of [`prepare_insert`], and on success holds the id of the new row.
/// The insert succeeds exactly where the row was written.
pub fn insert_log(log: &AddNightOwlLog, reply: StoreReply<i64>) -> (r: Result<NightOwlLog, StoreError>)
    ensures
        match r {
            Ok(entry) => insert_result(log@, reply) == Ok::<LogView, ErrorView>(entry@),
            Err(e) => insert_result(log@, reply) == Err::<LogView, ErrorView>(e@),
        },
        r is Ok <==> reply is Done,
{
    match reply {
        StoreReply::LockFailed(m) => Err(
            StoreError { kind: ErrorKind::StorageLockError, message: m },
        ),
        StoreReply::Failed(m) => Err(StoreError { kind: ErrorKind::StorageWriteError, message: m }),
        StoreReply::Done(id) => Ok(
            NightOwlLog {
                id: Some(id),
                tag: log.tag.clone(),
                message: log.message.clone(),
                data: log.data.clone(),
            },
        ),
    }
}

/// The entry that a row stands for in answer to a query for `tag`, given the
/// value that its stored data was read as, if it was read as one. A row whose
/// tag is not the one asked for, or whose data was read as no value, is a
/// failure of the read.
pub open spec fn row_entry_of(row: RowView, tag: Seq<char>, data: Option<JsonTree>) -> Result<
    LogView,
    ErrorView,
> {
    if row.tag != tag {
        Err(read_error("row belongs to another tag"@))
    } else {
        match data {
            None => Err(read_error("stored data is corrupted"@)),
            Some(value) => Ok(
                LogView { id: Some(row.id), tag: row.tag, message: row.message, data: value },
            ),
        }
    }
}

/// The entry that a row stands for in answer to a query for `tag`.
pub open spec fn row_entry(row: RowView, tag: Seq<char>) -> Result<LogView, ErrorView> {
    row_entry_of(row, tag, deserialized(row.data))
}

/// Makes the entry of a row in answer to a query for `tag`, once the row's
/// stored data has been read: `data` is the value it was read as, or none where
/// it is corrupted.
pub fn entry_of_row(row: &StoredRow, tag: &String, data: Option<JsonValue>) -> (r: Result<
    NightOwlLog,
    StoreError,
>)
    ensures
        match r {
            Ok(entry) => row_entry_of(
                row@,
                tag@,
                match data {
                    Some(v) => Some(v@),
                    None => None,
                },
            ) == Ok::<LogView, ErrorView>(entry@),
            Err(e) => row_entry_of(
                row@,
                tag@,
                match data {
                    Some(v) => Some(v@),
                    None => None,
                },
            ) == Err::<LogView, ErrorView>(e@),
        },
{
    if !(row.tag == *tag) {
        return Err(StoreError::new(ErrorKind::StorageReadError, "row belongs to another tag"));
    }
    match data {
        None => Err(StoreError::new(ErrorKind::StorageReadError, "stored data is corrupted")),
        Some(value) => Ok(
            NightOwlLog {
                id: Some(row.id),
                tag: row.tag.clone(),
                message: row.message.clone(),
                data: value,
            },
        ),
    }
}

/// Reads one row in answer to a query for `tag`.
pub fn read_row(row: &StoredRow, tag: &String) -> (r: Result<NightOwlLog, StoreError>)
    ensures
        match r {
            Ok(entry) => row_entry(row@, tag@) == Ok::<LogView, ErrorView>(entry@),
            Err(e) => row_entry(row@, tag@) == Err::<LogView, ErrorView>(e@),
        },
{
    let data = deserialize(row.data.as_str());
    entry_of_row(row, tag, data)
}

/// The models of the rows of a table, in its order.
pub open spec fn row_views(rows: Seq<StoredRow>) -> Seq<RowView> {
    rows.map_values(|row: StoredRow| row@)
}

/// The models of a list of entries, in its order.
pub open spec fn log_views(logs: Seq<NightOwlLog>) -> Seq<LogView> {
    logs.map_values(|log: NightOwlLog| log@)
}

/// Whether `k` is the first of `rows` that cannot be read for `tag`.
pub open spec fn first_unreadable(rows: Seq<RowView>, tag: Seq<char>, k: int) -> bool {
    &&& 0 <= k < rows.len()
    &&& row_entry(rows[k], tag) is Err
    &&& forall|j: int| 0 <= j < k ==> row_entry(#[trigger] rows[j], tag) is Ok
}

/// The entries that the rows returned for `tag` stand for, in the order of the
/// rows. One row that cannot be read fails the whole read, with the failure of
/// the first such row.
pub open spec fn read_rows(rows: Seq<RowView>, tag: Seq<char>) -> Result<Seq<LogView>, ErrorView> {
    if forall|i: int| 0 <= i < rows.len() ==> row_entry(#[trigger] rows[i], tag) is Ok {
        Ok(Seq::new(rows.len(), |i: int| row_entry(rows[i], tag)->Ok_0))
    } else {
        let k = choose|k: int| first_unreadable(rows, tag, k);
        Err(row_entry(rows[k], tag)->Err_0)
    }
}

/// What a query for `tag` comes to, for each reply of the database.
pub open spec fn query_result(tag: Seq<char>, reply: StoreReply<Vec<StoredRow>>) -> Result<
    Seq<LogView>,
    ErrorView,
> {
    match reply {
        StoreReply::LockFailed(m) => Err(lock_error(m@)),
        StoreReply::Failed(m) => Err(read_error(m@)),
        StoreReply::Done(rows) => read_rows(row_views(rows@), tag),
    }
}

/// Completes a query for `tag`: `reply` is what came of running
/// [`select_by_tag_sql`] with `tag`, and on success holds the rows in the order
/// in which the database returned them. No entry of another tag is ever
/// returned, no rows give no entries, which is no failure, and every entry
/// has the id of its row.
pub fn get_logs_by_tag(tag: &str, reply: StoreReply<Vec<StoredRow>>) -> (r: Result<
    Vec<NightOwlLog>,
    StoreError,
>)
    ensures
        match r {
            Ok(logs) => query_result(tag@, reply) == Ok::<Seq<LogView>, ErrorView>(log_views(logs@)),
            Err(e) => query_result(tag@, reply) == Err::<Seq<LogView>, ErrorView>(e@),
        },
        r is Ok ==> forall|i: int| 0 <= i < r->Ok_0@.len() ==> (#[trigger] r->Ok_0@[i]).tag@ == tag@,
        reply matches StoreReply::Done(rows) && rows@.len() == 0 ==> r is Ok && r->Ok_0@.len() == 0,
        reply is Done && r is Ok ==> r->Ok_0@.len() == reply->Done_0@.len() && forall|i: int|
            0 <= i < r->Ok_0@.len() ==> (#[trigger] r->Ok_0@[i]).id == Some(reply->Done_0@[i].id),
{
    match reply {
        StoreReply::LockFailed(m) => Err(
            StoreError { kind: ErrorKind::StorageLockError, message: m },
        ),
        StoreReply::Failed(m) => Err(StoreError { kind: ErrorKind::StorageReadError, message: m }),
        StoreReply::Done(rows) => {
            let ghost table = row_views(rows@);
            let wanted = tag.to_owned();
            let mut logs: Vec<NightOwlLog> = Vec::new();
            let mut i: usize = 0;
            while i < rows.len()
                invariant
                    i <= rows.len(),
                    reply == StoreReply::Done(rows),
                    table == row_views(rows@),
                    wanted@ == tag@,
                    logs@.len() == i,
                    forall|j: int|
                        0 <= j < i ==> row_entry(#[trigger] table[j], tag@) == Ok::<
                            LogView,
                            ErrorView,
                        >(logs@[j]@),
                decreases rows.len() - i,
            {
                match read_row(&rows[i], &wanted) {
                    Ok(entry) => {
                        logs.push(entry);
                    },
                    Err(e) => {
                        proof {
                            assert(first_unreadable(table, tag@, i as int));
                        }
                        return Err(e);
                    },
                }
                i += 1;
            }
            proof {
                assert(log_views(logs@) =~= read_rows(table, tag@)->Ok_0);
                assert forall|j: int| 0 <= j < logs@.len() implies (#[trigger] logs@[j]).tag@
                    == tag@ && logs@[j].id == Some(rows@[j].id) by {
                    assert(row_entry(table[j], tag@) is Ok);
                }
            }
            Ok(logs)
        },
    }
}

/// No entry of another tag is returned: every entry of a read for `tag` has
/// exactly that tag.
pub proof fn read_rows_keeps_to_tag(rows: Seq<RowView>, tag: Seq<char>, i: int)
    requires
        read_rows(rows, tag) is Ok,
        0 <= i < read_rows(rows, tag)->Ok_0.len(),
    ensures
        read_rows(rows, tag)->Ok_0[i].tag == tag,
{
}

/// Where no row matches, the read gives no entries, and that is no failure.
pub proof fn read_rows_of_none(tag: Seq<char>)
    ensures
        read_rows(Seq::<RowView>::empty(), tag) == Ok::<Seq<LogView>, ErrorView>(Seq::empty()),
{
    assert(read_rows(Seq::<RowView>::empty(), tag)->Ok_0 =~= Seq::<LogView>::empty());
}

/// The row that the table holds once the values of `row` were written and the
/// database assigned `id` to them.
pub open spec fn stored_row(row: NewRowView, id: i64) -> RowView {
    RowView { id, tag: row.tag, message: row.message, data: row.data }
}

/// An entry that was inserted is found again. Let an insert of `log` have been
/// prepared and let the database have assigned `id` to its row. Then a query
/// for the tag of `log` that is answered with rows among which that row is, and
/// that succeeds, gives in the row's place the very entry that the insert
/// returned: it has the id that was assigned and the message and the data of
/// the request.
pub proof fn inserted_entry_is_found(log: AddView, id: i64, rows: Seq<RowView>, k: int)
    requires
        new_row(log) is Ok,
        0 <= k < rows.len(),
        rows[k] == stored_row(new_row(log)->Ok_0, id),
        read_rows(rows, log.tag) is Ok,
    ensures
        read_rows(rows, log.tag)->Ok_0[k] == inserted(log, id),
        read_rows(rows, log.tag)->Ok_0[k].id == Some(id),
        read_rows(rows, log.tag)->Ok_0[k].message == log.message,
        read_rows(rows, log.tag)->Ok_0[k].data == log.data,
{
    round_trip(log.data);
    assert(row_entry(rows[k], log.tag) is Ok);
}

/// Every entry of a read has the id of its row, so that entries are as far
/// apart as their rows: two rows of different ids give two entries of
/// different ids, and rows in the order of their ids give entries in that
/// order.
pub proof fn read_rows_keeps_ids(rows: Seq<RowView>, tag: Seq<char>, i: int)
    requires
        read_rows(rows, tag) is Ok,
        0 <= i < rows.len(),
    ensures
        read_rows(rows, tag)->Ok_0[i].id == Some(rows[i].id),
{
    assert(row_entry(rows[i], tag) is Ok);
}

/// An insert that the database performed returns the id that the database
/// assigned, whatever that id is: of two inserts, the one whose row got the
/// smaller id returns the entry with the smaller id.
pub proof fn inserted_ids_keep_order(first: AddView, second: AddView, a: i64, b: i64)
    requires
        a < b,
    ensures
        inserted(first, a).id == Some(a),
        inserted(second, b).id == Some(b),
        inserted(first, a).id->0 < inserted(second, b).id->0,
{
}

} // verus!
