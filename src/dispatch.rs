use vstd::prelude::*;
use crate::registry::{resolve, DatabaseManager, DatabaseInfo};
use crate::sql::{decimal_of, push_decimal};
use crate::storage::{error_heading, error_text, DatabaseError};
use crate::text::{contains_char, has_prefix, starts_with};

verus! {

/// The kinds of failure that a caller sees.
#[derive(Debug, Clone, Copy, PartialEq, Eq, Structural)]
pub enum StatusCode {
    AlreadyExists,
    NotFound,
    InvalidArgument,
    Unavailable,
    Internal,
}

/// A failed request: its kind and a message.
#[derive(Debug, Clone)]
pub struct Status {
    pub code: StatusCode,
    pub message: String,
}

/// `a`, then `b`, then `c`.
pub(crate) fn text3(a: &str, b: &str, c: &str) -> (r: String)
    ensures
        r@ == a@ + b@ + c@,
{
    let mut s = String::from_str(a);
    s.append(b);
    s.append(c);
    s
}

/// The status that a backend failure is reported as. A conflict on a table
/// and a missing table get their own kinds; a refused query is an invalid
/// argument; a lost connection is unavailable, without the backend's text;
/// anything else is internal, with the failure's message.
pub open spec fn status_of(e: DatabaseError) -> (StatusCode, Seq<char>) {
    match e {
        DatabaseError::TableAlreadyExists(t) => (
            StatusCode::AlreadyExists,
            "Table '"@ + t@ + "' already exists"@,
        ),
        DatabaseError::TableNotFound(t) => (StatusCode::NotFound, "Table '"@ + t@ + "' not found"@),
        DatabaseError::QueryError(m) => (StatusCode::InvalidArgument, m@),
        DatabaseError::ConnectionError(_) => (
            StatusCode::Unavailable,
            "Database connection unavailable"@,
        ),
        _ => (StatusCode::Internal, error_heading(e) + error_text(e)),
    }
}

pub fn db_error_to_status(err: DatabaseError) -> (r: Status)
    ensures
        (r.code, r.message@) == status_of(err),
{
    match err {
        DatabaseError::TableAlreadyExists(t) => Status {
            code: StatusCode::AlreadyExists,
            message: text3("Table '", t.as_str(), "' already exists"),
        },
        DatabaseError::TableNotFound(t) => Status {
            code: StatusCode::NotFound,
            message: text3("Table '", t.as_str(), "' not found"),
        },
        DatabaseError::QueryError(m) => Status { code: StatusCode::InvalidArgument, message: m },
        DatabaseError::ConnectionError(_) => Status {
            code: StatusCode::Unavailable,
            message: String::from_str("Database connection unavailable"),
        },
        _ => Status { code: StatusCode::Internal, message: err.message() },
    }
}

/// The target that a request names; an empty name means the default.
pub fn target_of(database: &str) -> (r: Option<&str>)
    ensures
        database@.len() == 0 ==> r is None,
        database@.len() > 0 ==> r == Some(database),
{
    if database.is_empty() {
        None
    } else {
        Some(database)
    }
}

/// Resolves the connection that a request targets. A named target that is
/// not registered is not found; an empty one with no default is unavailable.
pub fn get_database<'a, H>(manager: &'a DatabaseManager<H>, database: &str) -> (r: Result<
    &'a H,
    Status,
>)
    requires
        manager.wf(),
    ensures
        r matches Ok(h) ==> resolve(manager.records(), Some(database@))
            matches Some(rec) && rec.db == *h,
        r is Err <==> resolve(manager.records(), Some(database@)) is None,
        r matches Err(s) ==> (database@.len() > 0 ==> s.code == StatusCode::NotFound
            && s.message@ == "Database '"@ + database@ + "' not found"@),
        r matches Err(s) ==> (database@.len() == 0 ==> s.code == StatusCode::Unavailable
            && s.message@ == "No database connections available"@),
{
    let target = target_of(database);
    match manager.get_database_or_default(target) {
        Some(h) => Ok(h),
        None => {
            if target.is_some() {
                Err(
                    Status {
                        code: StatusCode::NotFound,
                        message: text3("Database '", database, "' not found"),
                    },
                )
            } else {
                Err(
                    Status {
                        code: StatusCode::Unavailable,
                        message: String::from_str("No database connections available"),
                    },
                )
            }
        },
    }
}

/// Reply to a table creation.
#[derive(Debug, Clone)]
pub struct CreateTableResponse {
    pub success: bool,
    pub message: String,
}

/// Reply to a table drop.
#[derive(Debug, Clone)]
pub struct DropTableResponse {
    pub success: bool,
    pub message: String,
}

/// Reply to an insert: the id that the backend gave the row.
#[derive(Debug, Clone)]
pub struct InsertResponse {
    pub success: bool,
    pub message: String,
    pub inserted_id: i64,
}

/// Reply to an update.
#[derive(Debug, Clone)]
pub struct UpdateResponse {
    pub success: bool,
    pub message: String,
    pub affected_rows: i64,
}

/// Reply to a delete.
#[derive(Debug, Clone)]
pub struct DeleteResponse {
    pub success: bool,
    pub message: String,
    pub affected_rows: i64,
}

/// Reply to a batch insert.
#[derive(Debug, Clone)]
pub struct BatchInsertResponse {
    pub success: bool,
    pub message: String,
    pub inserted_count: i64,
}

/// Reply to a request to register a connection; failures are reported here
/// too, never as a `Status`.
#[derive(Debug, Clone)]
pub struct AddDatabaseResponse {
    pub success: bool,
    pub message: String,
}

/// The state of one registered connection, as the status reply gives it.
#[derive(Debug, Clone)]
pub struct DatabaseStatus {
    pub name: String,
    pub url: String,
    pub connected: bool,
    pub connection_time: i64,
    pub active_connections: i32,
}

/// Reply to a status request.
#[derive(Debug, Clone)]
pub struct ServerStatusResponse {
    pub server_running: bool,
    pub uptime_seconds: i64,
    pub databases: Vec<DatabaseStatus>,
}

pub fn create_table_reply(table_name: &str, outcome: Result<(), DatabaseError>) -> (r: Result<
    CreateTableResponse,
    Status,
>)
    ensures
        outcome is Ok <==> r is Ok,
        r matches Ok(resp) ==> resp.success && resp.message@ == "Table '"@ + table_name@
            + "' created successfully"@,
        outcome matches Err(e) ==> (r matches Err(s) && (s.code, s.message@) == status_of(e)),
{
    match outcome {
        Ok(()) => Ok(
            CreateTableResponse {
                success: true,
                message: text3("Table '", table_name, "' created successfully"),
            },
        ),
        Err(e) => Err(db_error_to_status(e)),
    }
}

pub fn drop_table_reply(table_name: &str, outcome: Result<(), DatabaseError>) -> (r: Result<
    DropTableResponse,
    Status,
>)
    ensures
        outcome is Ok <==> r is Ok,
        r matches Ok(resp) ==> resp.success && resp.message@ == "Table '"@ + table_name@
            + "' dropped successfully"@,
        outcome matches Err(e) ==> (r matches Err(s) && (s.code, s.message@) == status_of(e)),
{
    match outcome {
        Ok(()) => Ok(
            DropTableResponse {
                success: true,
                message: text3("Table '", table_name, "' dropped successfully"),
            },
        ),
        Err(e) => Err(db_error_to_status(e)),
    }
}

pub fn insert_reply(outcome: Result<i64, DatabaseError>) -> (r: Result<InsertResponse, Status>)
    ensures
        outcome is Ok <==> r is Ok,
        outcome matches Ok(id) ==> (r matches Ok(resp) && resp.success && resp.inserted_id == id
            && resp.message@ == "Insert successful"@),
        outcome matches Err(e) ==> (r matches Err(s) && (s.code, s.message@) == status_of(e)),
{
    match outcome {
        Ok(id) => Ok(
            InsertResponse {
                success: true,
                message: String::from_str("Insert successful"),
                inserted_id: id,
            },
        ),
        Err(e) => Err(db_error_to_status(e)),
    }
}

/// `n` in decimal, then `tail`.
fn count_text(n: u64, tail: &str) -> (r: String)
    ensures
        r@ == decimal_of(n as nat) + tail@,
{
    let mut s = String::new();
    push_decimal(&mut s, n);
    s.append(tail);
    proof {
        assert(Seq::<char>::empty() + decimal_of(n as nat) =~= decimal_of(n as nat));
    }
    s
}

pub fn update_reply(outcome: Result<u64, DatabaseError>) -> (r: Result<UpdateResponse, Status>)
    ensures
        outcome is Ok <==> r is Ok,
        outcome matches Ok(n) ==> (r matches Ok(resp) && resp.success && resp.affected_rows
            == n as i64 && resp.message@ == decimal_of(n as nat) + " rows updated"@),
        outcome matches Err(e) ==> (r matches Err(s) && (s.code, s.message@) == status_of(e)),
{
    match outcome {
        Ok(n) => Ok(
            UpdateResponse {
                success: true,
                message: count_text(n, " rows updated"),
                affected_rows: n as i64,
            },
        ),
        Err(e) => Err(db_error_to_status(e)),
    }
}

pub fn delete_reply(outcome: Result<u64, DatabaseError>) -> (r: Result<DeleteResponse, Status>)
    ensures
        outcome is Ok <==> r is Ok,
        outcome matches Ok(n) ==> (r matches Ok(resp) && resp.success && resp.affected_rows
            == n as i64 && resp.message@ == decimal_of(n as nat) + " rows deleted"@),
        outcome matches Err(e) ==> (r matches Err(s) && (s.code, s.message@) == status_of(e)),
{
    match outcome {
        Ok(n) => Ok(
            DeleteResponse {
                success: true,
                message: count_text(n, " rows deleted"),
                affected_rows: n as i64,
            },
        ),
        Err(e) => Err(db_error_to_status(e)),
    }
}

pub fn batch_insert_reply(outcome: Result<u64, DatabaseError>) -> (r: Result<
    BatchInsertResponse,
    Status,
>)
    ensures
        outcome is Ok <==> r is Ok,
        outcome matches Ok(n) ==> (r matches Ok(resp) && resp.success && resp.inserted_count
            == n as i64 && resp.message@ == decimal_of(n as nat) + " rows inserted"@),
        outcome matches Err(e) ==> (r matches Err(s) && (s.code, s.message@) == status_of(e)),
{
    match outcome {
        Ok(n) => Ok(
            BatchInsertResponse {
                success: true,
                message: count_text(n, " rows inserted"),
                inserted_count: n as i64,
            },
        ),
        Err(e) => Err(db_error_to_status(e)),
    }
}

/// An SQLite URL with no options is opened in create-if-missing mode.
pub open spec fn add_url_of(url: Seq<char>) -> Seq<char> {
    if has_prefix(url, "sqlite://"@) && !url.contains('?') {
        url + "?mode=rwc"@
    } else {
        url
    }
}

/// Checks a request to register a connection and gives the URL to connect
/// to; a request with an empty name is answered at once.
pub fn check_add_database(name: &str, url: &str) -> (r: Result<String, AddDatabaseResponse>)
    ensures
        name@.len() == 0 <==> r is Err,
        r matches Err(resp) ==> !resp.success && resp.message@
            == "Database name cannot be empty"@,
        r matches Ok(u) ==> u@ == add_url_of(url@),
{
    if name.is_empty() {
        return Err(
            AddDatabaseResponse {
                success: false,
                message: String::from_str("Database name cannot be empty"),
            },
        );
    }
    proof {
        reveal_strlit("");
        assert(url@ + ""@ =~= url@);
    }
    if starts_with(url, "sqlite://") && !contains_char(url, '?') {
        Ok(text3(url, "?mode=rwc", ""))
    } else {
        Ok(text3(url, "", ""))
    }
}

/// The reply once the registry has handled the request.
pub fn add_database_reply(name: &str, outcome: Result<(), DatabaseError>) -> (r:
    AddDatabaseResponse)
    ensures
        r.success == outcome is Ok,
        outcome is Ok ==> r.message@ == "Database '"@ + name@ + "' added successfully"@,
        outcome matches Err(e) ==> r.message@ == "Failed to add database '"@ + name@ + "': "@
            + error_heading(e) + error_text(e),
{
    match outcome {
        Ok(()) => AddDatabaseResponse {
            success: true,
            message: text3("Database '", name, "' added successfully"),
        },
        Err(e) => {
            let mut m = text3("Failed to add database '", name, "': ");
            m.append(e.message().as_str());
            AddDatabaseResponse { success: false, message: m }
        },
    }
}

/// The status reply: every record's summary, in registration order, and
/// the uptime. A record with no connection time reports 0; each record
/// counts as one active connection.
pub fn server_status<H>(manager: &DatabaseManager<H>, uptime_seconds: i64) -> (r:
    ServerStatusResponse)
    ensures
        r.server_running,
        r.uptime_seconds == uptime_seconds,
        r.databases@.len() == manager.records().len(),
        forall|i: int|
            0 <= i < r.databases@.len() ==> {
                let rec = #[trigger] manager.records()[i];
                let d = r.databases@[i];
                &&& d.name@ == rec.name
                &&& d.url@ == rec.url
                &&& d.connected == rec.connected
                &&& d.connection_time == match rec.connection_time {
                    Some(t) => t,
                    None => 0,
                }
                &&& d.active_connections == 1
            },
{
    let infos = manager.list_databases();
    let mut out: Vec<DatabaseStatus> = Vec::new();
    let mut i: usize = 0;
    while i < infos.len()
        invariant
            i <= infos.len(),
            infos.len() == manager.records().len(),
            out.len() == i,
            forall|k: int|
                0 <= k < infos.len() ==> {
                    let rec = #[trigger] manager.records()[k];
                    &&& infos[k].name@ == rec.name
                    &&& infos[k].url@ == rec.url
                    &&& infos[k].connected == rec.connected
                    &&& infos[k].connection_time == rec.connection_time
                },
            forall|k: int|
                0 <= k < i ==> {
                    let rec = #[trigger] manager.records()[k];
                    let d = out@[k];
                    &&& d.name@ == rec.name
                    &&& d.url@ == rec.url
                    &&& d.connected == rec.connected
                    &&& d.connection_time == match rec.connection_time {
                        Some(t) => t,
                        None => 0,
                    }
                    &&& d.active_connections == 1
                },
        decreases infos.len() - i,
    {
        let info: &DatabaseInfo = &infos[i];
        let time = match info.connection_time {
            Some(t) => t,
            None => 0,
        };
        out.push(
            DatabaseStatus {
                name: info.name.clone(),
                url: info.url.clone(),
                connected: info.connected,
                connection_time: time,
                active_connections: 1,
            },
        );
        i = i + 1;
    }
    ServerStatusResponse { server_running: true, uptime_seconds, databases: out }
}

/// The URL that the server opens for its `default` connection: a URL with
/// no options is opened in create-if-missing mode.
pub fn server_database_url(validated: &str) -> (r: String)
    ensures
        validated@.contains('?') ==> r@ == validated@,
        !validated@.contains('?') ==> r@ == validated@ + "?mode=rwc"@,
{
    proof {
        reveal_strlit("");
        assert(validated@ + ""@ + ""@ =~= validated@);
        assert(validated@ + "?mode=rwc"@ + ""@ =~= validated@ + "?mode=rwc"@);
    }
    if contains_char(validated, '?') {
        text3(validated, "", "")
    } else {
        text3(validated, "?mode=rwc", "")
    }
}

} // verus!
