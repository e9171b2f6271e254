use task_tracker::storage::{
    connect, decode_row, decode_rows, ensure_initialized, insert_task, list_tasks, show_tasks,
    RawRow, StorageError,
};
use task_tracker::task::{new_task, status_code, status_text, TaskStatus};

fn fresh_store() -> rusqlite::Connection {
    let conn = connect(":memory:").unwrap();
    assert_eq!(ensure_initialized(&conn, false), Ok(true));
    conn
}

fn raw_row(status: i64) -> RawRow {
    RawRow {
        id: 1,
        summary: "s".to_string(),
        assignee: "a".to_string(),
        status,
        created: "c".to_string(),
    }
}

#[test]
fn initializing_absent_store_creates_one_table_with_five_columns() {
    let conn = fresh_store();
    let tables: i64 = conn
        .query_row(
            "select count(*) from sqlite_master where type = 'table'",
            [],
            |r| r.get(0),
        )
        .unwrap();
    assert_eq!(tables, 1);
    let mut stmt = conn
        .prepare("select name from pragma_table_info('tasks') order by cid")
        .unwrap();
    let columns: Vec<String> = stmt
        .query_map([], |r| r.get(0))
        .unwrap()
        .map(|c| c.unwrap())
        .collect();
    assert_eq!(columns, vec!["id", "summary", "assignee", "status", "created"]);
}

#[test]
fn initializing_present_store_performs_no_schema_action() {
    let conn = connect(":memory:").unwrap();
    assert_eq!(ensure_initialized(&conn, true), Ok(false));
    // Nothing ran: the store still has no tasks table, so a listing fails.
    assert!(list_tasks(&conn).is_err());
}

#[test]
fn inserted_task_is_stored_with_fresh_id_and_todo_status() {
    let conn = fresh_store();
    let task = new_task(
        "Write spec".to_string(),
        "Alice".to_string(),
        "2024-01-01 00:00:00 UTC".to_string(),
    );
    assert_eq!(insert_task(&conn, &task), Ok(()));
    let tasks = list_tasks(&conn).unwrap();
    assert_eq!(tasks.len(), 1);
    let stored = &tasks[0];
    assert!(stored.id.unwrap() > 0);
    assert_eq!(status_code(stored.status), 0);
    assert_eq!(status_text(stored.status), "Todo");
    assert_eq!(stored.summary, "Write spec");
    assert_eq!(stored.assignee, "Alice");
    assert_eq!(stored.created, "2024-01-01 00:00:00 UTC");
    let (listed, table) = show_tasks(&conn).unwrap();
    assert_eq!(listed.len(), 1);
    assert_eq!(listed[0].summary, "Write spec");
    assert!(table.contains("Write spec"));
    assert!(table.contains("Todo"));
}

#[test]
fn two_inserts_yield_distinct_ids_in_insertion_order() {
    let conn = fresh_store();
    let first = new_task("first".to_string(), "a".to_string(), "t1".to_string());
    let second = new_task("second".to_string(), "b".to_string(), "t2".to_string());
    assert_eq!(insert_task(&conn, &first), Ok(()));
    assert_eq!(insert_task(&conn, &second), Ok(()));
    let tasks = list_tasks(&conn).unwrap();
    assert_eq!(tasks.len(), 2);
    assert_eq!(tasks[0].summary, "first");
    assert_eq!(tasks[1].summary, "second");
    assert_ne!(tasks[0].id.unwrap(), tasks[1].id.unwrap());
}

#[test]
fn corrupt_status_code_fails_the_listing() {
    let conn = fresh_store();
    conn.execute(
        "insert into tasks (summary,assignee,status,created) VALUES ('x','y',9,'z')",
        [],
    )
    .unwrap();
    assert_eq!(
        list_tasks(&conn).unwrap_err(),
        StorageError::InvalidStatusCode(9)
    );
    assert!(show_tasks(&conn).is_err());
}

#[test]
fn empty_store_lists_no_tasks() {
    let conn = fresh_store();
    let tasks = list_tasks(&conn).unwrap();
    assert_eq!(tasks.len(), 0);
    let (listed, table) = show_tasks(&conn).unwrap();
    assert_eq!(listed.len(), 0);
    assert!(table.contains("Summary"));
}

#[test]
fn decode_row_accepts_exactly_the_four_codes() {
    for (code, status) in [
        (0, TaskStatus::Todo),
        (1, TaskStatus::Doing),
        (2, TaskStatus::Cancelled),
        (3, TaskStatus::Completed),
    ] {
        let task = decode_row(raw_row(code)).unwrap();
        assert_eq!(status_code(task.status), status_code(status));
        assert_eq!(task.id, Some(1));
    }
    assert_eq!(
        decode_row(raw_row(4)).unwrap_err(),
        StorageError::InvalidStatusCode(4)
    );
    assert_eq!(
        decode_row(raw_row(-1)).unwrap_err(),
        StorageError::InvalidStatusCode(-1)
    );
}

#[test]
fn decode_rows_keeps_order_and_rejects_one_bad_row() {
    let rows = vec![raw_row(0), raw_row(3)];
    let tasks = decode_rows(rows).unwrap();
    assert_eq!(tasks.len(), 2);
    assert_eq!(status_code(tasks[0].status), 0);
    assert_eq!(status_code(tasks[1].status), 3);

    let rows = vec![raw_row(0), raw_row(7), raw_row(1)];
    assert_eq!(
        decode_rows(rows).unwrap_err(),
        StorageError::InvalidStatusCode(7)
    );
}

#[test]
fn list_tasks_is_err_rather_than_panicking_on_corruption() {
    let conn = fresh_store();
    conn.execute(
        "insert into tasks (summary,assignee,status,created) VALUES ('ok','a',2,'t')",
        [],
    )
    .unwrap();
    conn.execute(
        "insert into tasks (summary,assignee,status,created) VALUES ('bad','b',-5,'t')",
        [],
    )
    .unwrap();
    assert_eq!(
        list_tasks(&conn).unwrap_err(),
        StorageError::InvalidStatusCode(-5)
    );
}
