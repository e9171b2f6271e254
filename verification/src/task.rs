//! The task model: a `Task` record and its `TaskStatus` enumeration,
//! together with the integer codes under which a status is stored.

use vstd::prelude::*;

verus! {

/// The lifecycle state of a task. Stored as a small integer code (0 to 3);
/// any other stored code is a corruption and is rejected on read.
#[derive(Clone, Copy, Debug, PartialEq, Eq, Structural)]
pub enum TaskStatus {
    Todo,
    Doing,
    Cancelled,
    Completed,
}

/// The integer code under which a status is stored.
pub open spec fn status_code_spec(s: TaskStatus) -> int {
    match s {
        TaskStatus::Todo => 0,
        TaskStatus::Doing => 1,
        TaskStatus::Cancelled => 2,
        TaskStatus::Completed => 3,
    }
}

/// The status a stored code denotes, if any: only 0 to 3 are defined.
pub open spec fn status_of_code_spec(c: int) -> Option<TaskStatus> {
    if c == 0 {
        Some(TaskStatus::Todo)
    } else if c == 1 {
        Some(TaskStatus::Doing)
    } else if c == 2 {
        Some(TaskStatus::Cancelled)
    } else if c == 3 {
        Some(TaskStatus::Completed)
    } else {
        None
    }
}

/// The integer code under which `s` is stored.
pub fn status_code(s: TaskStatus) -> (c: i64)
    ensures
        c == status_code_spec(s),
{
    match s {
        TaskStatus::Todo => 0,
        TaskStatus::Doing => 1,
        TaskStatus::Cancelled => 2,
        TaskStatus::Completed => 3,
    }
}

/// Decodes a stored status code; `None` for any code outside 0 to 3.
pub fn status_from_code(c: i64) -> (r: Option<TaskStatus>)
    ensures
        r == status_of_code_spec(c as int),
{
    if c == 0 {
        Some(TaskStatus::Todo)
    } else if c == 1 {
        Some(TaskStatus::Doing)
    } else if c == 2 {
        Some(TaskStatus::Cancelled)
    } else if c == 3 {
        Some(TaskStatus::Completed)
    } else {
        None
    }
}

/// The text under which a status is shown in the task table.
pub open spec fn status_text_spec(s: TaskStatus) -> Seq<char> {
    match s {
        TaskStatus::Todo => "Todo"@,
        TaskStatus::Doing => "Doing"@,
        TaskStatus::Cancelled => "Cancelled"@,
        TaskStatus::Completed => "Completed"@,
    }
}

/// The text under which `s` is shown in the task table.
pub fn status_text(s: TaskStatus) -> (r: &'static str)
    ensures
        r@ == status_text_spec(s),
{
    match s {
        TaskStatus::Todo => "Todo",
        TaskStatus::Doing => "Doing",
        TaskStatus::Cancelled => "Cancelled",
        TaskStatus::Completed => "Completed",
    }
}

/// One item of work. `id` is assigned by the store on insert, exactly once,
/// and is absent before persistence; the other fields are immutable after
/// creation.
#[derive(Debug)]
pub struct Task {
    pub id: Option<i64>,
    pub summary: String,
    pub assignee: String,
    pub status: TaskStatus,
    pub created: String,
}

/// Builds a not-yet-persisted task: no identity, status fixed to `Todo`.
pub fn new_task(summary: String, assignee: String, created: String) -> (t: Task)
    ensures
        t.id is None,
        t.summary == summary,
        t.assignee == assignee,
        t.status == TaskStatus::Todo,
        t.created == created,
{
    Task { id: None, summary, assignee, status: TaskStatus::Todo, created }
}

/// Relies on chrono's `Utc::now` and its text form (`Display` of
/// `DateTime<Utc>`): the current UTC time as text. The value depends on
/// the clock; every outcome is a date-time text followed by the zone
/// suffix `" UTC"`, so it is never empty.
#[verifier::external_body]
fn utc_now_text() -> (r: String)
    ensures
        r@.len() > 4,
        r@.subrange(r@.len() - 4, r@.len() as int) == " UTC"@,
{
    chrono::Utc::now().to_string()
}

/// Builds the task the add-task flow hands to storage: the collected
/// summary and assignee, stamped with the current UTC time — a date-time
/// text ending in the zone suffix `" UTC"` — status fixed to `Todo`, and
/// no identity yet.
pub fn new_task_now(summary: String, assignee: String) -> (t: Task)
    ensures
        t.id is None,
        t.summary == summary,
        t.assignee == assignee,
        t.status == TaskStatus::Todo,
        t.created@.len() > 4,
        t.created@.subrange(t.created@.len() - 4, t.created@.len() as int) == " UTC"@,
{
    let created = utc_now_text();
    new_task(summary, assignee, created)
}

/// Encoding a status and decoding the code gives the status back, so no
/// two statuses share a stored code.
pub proof fn lemma_status_code_roundtrip(s: TaskStatus)
    ensures
        status_of_code_spec(status_code_spec(s)) == Some(s),
{
}

/// Every code from 0 to 3 denotes a status, and that status is stored
/// under the same code; every other code denotes none.
pub proof fn lemma_status_code_exact(c: int)
    ensures
        0 <= c <= 3 ==> (status_of_code_spec(c) matches Some(s) && status_code_spec(s) == c),
        !(0 <= c <= 3) ==> status_of_code_spec(c) is None,
{
}

} // verus!
