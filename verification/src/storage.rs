//! The storage gateway: owns the SQL that defines, fills and reads the
//! one `tasks` table of the on-disk store, through rusqlite. What SQLite
//! returns depends on the store on disk, so the calls themselves are
//! trusted with open contracts; everything done to their results — status
//! decoding, row validation, ordering of the listing — is verified.

use vstd::prelude::*;

use crate::render::{render_task_table, rendered_table, rows_spec, titles_spec};
use crate::task::{status_code, status_from_code, status_of_code_spec, Task};

verus! {

/// The connection type of rusqlite, opaque to the contracts: a handle to
/// the on-disk store.
#[verifier::external_type_specification]
#[verifier::external_body]
pub struct ExConnection(rusqlite::Connection);

/// The error type of rusqlite, opaque to the contracts; it is mapped to
/// [`StorageError`] before verified code looks at a failure.
#[verifier::external_type_specification]
#[verifier::external_body]
pub struct ExSqliteError(rusqlite::Error);

/// Why a storage operation failed.
#[derive(Clone, Copy, Debug, PartialEq, Eq, Structural)]
pub enum StorageError {
    /// The store refused the operation: open, schema, insert, query or
    /// row-decode failure. The cause is not kept.
    Database,
    /// A stored status code outside the four defined values: corruption,
    /// fatal to a listing.
    InvalidStatusCode(i64),
}

/// One row as the store returns it, the status still a raw integer code.
#[derive(Debug)]
pub struct RawRow {
    pub id: i64,
    pub summary: String,
    pub assignee: String,
    pub status: i64,
    pub created: String,
}

/// Relies on rusqlite's `Connection::open`: opens the SQLite store at
/// `path`, creating the file when it is absent. The outcome depends on
/// the file system.
#[verifier::external_body]
fn open_db(path: &str) -> Result<rusqlite::Connection, rusqlite::Error> {
    rusqlite::Connection::open(path)
}

/// The one schema statement of the store: it creates the `tasks` table —
/// five columns: an integer-primary-key id, summary, assignee, an integer
/// status code, and the creation timestamp text — when no such table
/// exists yet.
pub open spec fn schema_sql_spec() -> Seq<char> {
    "create table if not exists tasks(
        id integer PRIMARY KEY,
        summary text NOT NULL,
        assignee text NOT NULL,
        status integer NOT NULL,
        created text NOT NULL);"@
}

/// The one insert statement of the store: it appends a single row, its
/// four columns bound to the statement's parameters 1 to 4 in the order
/// summary, assignee, status code, creation timestamp; the id column is
/// left to the store.
pub open spec fn insert_sql_spec() -> Seq<char> {
    "insert into tasks (summary,assignee,status,created)
    VALUES (?1,?2,?3,?4)"@
}

/// The one read statement of the store: it selects the five columns of
/// every row of the `tasks` table, id first and the creation timestamp
/// last.
pub open spec fn select_sql_spec() -> Seq<char> {
    "SELECT id,summary,assignee,status,created FROM tasks"@
}

/// Relies on rusqlite's `Connection::execute`: runs one SQL statement —
/// here always the schema statement — with no parameters. The outcome
/// depends on the store on disk.
#[verifier::external_body]
fn execute_sql(conn: &rusqlite::Connection, sql: &str) -> Result<usize, rusqlite::Error>
    requires
        sql@ == schema_sql_spec(),
{
    conn.execute(sql, [])
}

/// Relies on rusqlite's `Connection::execute`: runs the insert statement,
/// binding the four given values to its parameters `?1` to `?4`, in
/// order. The outcome depends on the store on disk.
#[verifier::external_body]
fn execute_insert(
    conn: &rusqlite::Connection,
    sql: &str,
    summary: &str,
    assignee: &str,
    status: i64,
    created: &str,
) -> Result<usize, rusqlite::Error>
    requires
        sql@ == insert_sql_spec(),
{
    conn.execute(sql, (summary, assignee, status, created))
}

/// Relies on rusqlite's `Connection::prepare` and `Statement::query_map`:
/// runs the SELECT of the five task columns and hands every row back as
/// plain values, in the order the store returns them. The outcome depends
/// on the store on disk.
#[verifier::external_body]
fn query_rows(conn: &rusqlite::Connection, sql: &str) -> Result<Vec<RawRow>, rusqlite::Error>
    requires
        sql@ == select_sql_spec(),
{
    let mut stmt = conn.prepare(sql)?;
    let rows = stmt.query_map([], |row| {
        Ok(RawRow {
            id: row.get(0)?,
            summary: row.get(1)?,
            assignee: row.get(2)?,
            status: row.get(3)?,
            created: row.get(4)?,
        })
    })?;
    rows.collect()
}

/// Opens (or creates) the store at `path`. The outcome depends on the
/// file system alone; a failure is fatal to the caller.
pub fn connect(path: &str) -> (r: Result<rusqlite::Connection, StorageError>)
    ensures
        r matches Err(e) ==> e == StorageError::Database,
{
    match open_db(path) {
        Ok(c) => Ok(c),
        Err(_) => Err(StorageError::Database),
    }
}

/// Whether the status code of a stored row is one of the four defined
/// values.
pub open spec fn row_status_ok(r: RawRow) -> bool {
    0 <= r.status <= 3
}

/// The task a well-formed stored row denotes: the id as assigned by the
/// store, the status code decoded.
pub open spec fn decode_row_spec(r: RawRow) -> Task {
    Task {
        id: Some(r.id),
        summary: r.summary,
        assignee: r.assignee,
        status: status_of_code_spec(r.status as int)->0,
        created: r.created,
    }
}

/// Decodes one stored row; a status code outside the four defined values
/// is corruption and is rejected, never coerced.
pub fn decode_row(r: RawRow) -> (t: Result<Task, StorageError>)
    ensures
        row_status_ok(r) <==> t is Ok,
        t matches Ok(task) ==> task == decode_row_spec(r),
        t matches Err(e) ==> e == StorageError::InvalidStatusCode(r.status),
{
    match status_from_code(r.status) {
        Some(s) => Ok(
            Task {
                id: Some(r.id),
                summary: r.summary,
                assignee: r.assignee,
                status: s,
                created: r.created,
            },
        ),
        None => Err(StorageError::InvalidStatusCode(r.status)),
    }
}

/// Decodes a batch of stored rows, keeping their order. It succeeds if
/// and only if every row's status code is one of the four defined values;
/// one bad row fails the whole batch with its code.
#[verifier::loop_isolation(false)]
pub fn decode_rows(rows: Vec<RawRow>) -> (r: Result<Vec<Task>, StorageError>)
    ensures
        (forall|i: int| 0 <= i < rows@.len() ==> row_status_ok(#[trigger] rows@[i])) <==> r is Ok,
        r matches Ok(ts) ==> ts@.len() == rows@.len() && forall|i: int|
            0 <= i < rows@.len() ==> ts@[i] == decode_row_spec(#[trigger] rows@[i]),
        r matches Err(e) ==> exists|i: int|
            0 <= i < rows@.len() && !row_status_ok(#[trigger] rows@[i]) && e
                == StorageError::InvalidStatusCode(rows@[i].status),
{
    let ghost all = rows@;
    let mut rem = rows;
    let mut out: Vec<Task> = Vec::new();
    proof {
        assert(rem@ =~= all.subrange(0, all.len() as int));
    }
    while rem.len() > 0
        invariant
            out@.len() + rem@.len() == all.len(),
            rem@ == all.subrange(out@.len() as int, all.len() as int),
            forall|j: int| 0 <= j < out@.len() ==> row_status_ok(#[trigger] all[j]),
            forall|j: int| 0 <= j < out@.len() ==> out@[j] == decode_row_spec(#[trigger] all[j]),
        decreases rem@.len(),
    {
        let ghost idx = out@.len() as int;
        let row = rem.remove(0);
        proof {
            assert(row == all[idx]);
            assert(rem@ =~= all.subrange(idx + 1, all.len() as int));
        }
        match decode_row(row) {
            Ok(t) => out.push(t),
            Err(e) => {
                proof {
                    assert(!row_status_ok(rows@[idx]));
                }
                return Err(e);
            },
        }
    }
    Ok(out)
}

/// Checks the store's schema on startup. When the store file already
/// existed the schema is trusted as in place and nothing is run; when it
/// was absent, the one statement creating the `tasks` table — five
/// columns: an integer-primary-key id, summary, assignee, an integer
/// status code, and the creation date text — is issued. The result says
/// whether the schema-creation statement ran.
pub fn ensure_initialized(conn: &rusqlite::Connection, store_exists: bool) -> (r: Result<
    bool,
    StorageError,
>)
    ensures
        store_exists ==> (r matches Ok(created) && created == false),
        r matches Ok(created) ==> created == !store_exists,
        r matches Err(e) ==> e == StorageError::Database && !store_exists,
{
    if store_exists {
        return Ok(false);
    }
    let outcome = execute_sql(
        conn,
        "create table if not exists tasks(
        id integer PRIMARY KEY,
        summary text NOT NULL,
        assignee text NOT NULL,
        status integer NOT NULL,
        created text NOT NULL);",
    );
    match outcome {
        Ok(_) => Ok(true),
        Err(_) => Err(StorageError::Database),
    }
}

/// Appends one row with the task's four mutable fields; the id column is
/// assigned by the store, never by the caller. Whether the insert
/// succeeds depends on the store on disk; a failure is reported with its
/// cause discarded.
pub fn insert_task(conn: &rusqlite::Connection, task: &Task) -> (r: Result<(), StorageError>)
    ensures
        r matches Err(e) ==> e == StorageError::Database,
{
    let code = status_code(task.status);
    let outcome = execute_insert(
        conn,
        "insert into tasks (summary,assignee,status,created)
    VALUES (?1,?2,?3,?4)",
        task.summary.as_str(),
        task.assignee.as_str(),
        code,
        task.created.as_str(),
    );
    match outcome {
        Ok(_) => Ok(()),
        Err(_) => Err(StorageError::Database),
    }
}

/// Reads back all stored rows, in the order the store returns them, each
/// status code decoded. A row whose code is outside the four defined
/// values fails the whole listing — corruption is never rendered as a
/// bogus status. Every task of a successful listing carries its stored
/// id.
pub fn list_tasks(conn: &rusqlite::Connection) -> (r: Result<Vec<Task>, StorageError>)
    ensures
        r matches Ok(ts) ==> forall|i: int| 0 <= i < ts@.len() ==> (#[trigger] ts@[i]).id is Some,
{
    match query_rows(conn, "SELECT id,summary,assignee,status,created FROM tasks") {
        Ok(rows) => {
            let ghost rows_view = rows@;
            match decode_rows(rows) {
                Ok(ts) => {
                    proof {
                        assert forall|i: int|
                            0 <= i < ts@.len() implies (#[trigger] ts@[i]).id is Some by {
                            assert(ts@[i] == decode_row_spec(rows_view[i]));
                        }
                    }
                    Ok(ts)
                },
                Err(e) => Err(e),
            }
        },
        Err(_) => Err(StorageError::Database),
    }
}

/// Lists the stored tasks and renders them as the console table: on
/// success it returns the listed tasks together with their rendered
/// table — one data row per listed task under the fixed header row, each
/// task carrying its stored id.
pub fn show_tasks(conn: &rusqlite::Connection) -> (r: Result<(Vec<Task>, String), StorageError>)
    ensures
        r matches Ok(p) ==> p.1@ == rendered_table(titles_spec(), rows_spec(p.0@)),
        r matches Ok(p) ==> forall|i: int| 0 <= i < p.0@.len() ==> (#[trigger] p.0@[i]).id is Some,
{
    let tasks = match list_tasks(conn) {
        Ok(ts) => ts,
        Err(e) => {
            return Err(e);
        },
    };
    let text = render_task_table(&tasks);
    Ok((tasks, text))
}

} // verus!
