use task_tracker::task::{new_task, new_task_now, status_code, status_from_code, status_text, TaskStatus};

#[test]
fn status_codes_are_fixed() {
    assert_eq!(status_code(TaskStatus::Todo), 0);
    assert_eq!(status_code(TaskStatus::Doing), 1);
    assert_eq!(status_code(TaskStatus::Cancelled), 2);
    assert_eq!(status_code(TaskStatus::Completed), 3);
}

#[test]
fn status_codes_round_trip() {
    for s in [
        TaskStatus::Todo,
        TaskStatus::Doing,
        TaskStatus::Cancelled,
        TaskStatus::Completed,
    ] {
        assert_eq!(status_from_code(status_code(s)), Some(s));
    }
}

#[test]
fn undefined_codes_decode_to_nothing() {
    assert_eq!(status_from_code(4), None);
    assert_eq!(status_from_code(-1), None);
    assert_eq!(status_from_code(255), None);
}

#[test]
fn status_texts() {
    assert_eq!(status_text(TaskStatus::Todo), "Todo");
    assert_eq!(status_text(TaskStatus::Doing), "Doing");
    assert_eq!(status_text(TaskStatus::Cancelled), "Cancelled");
    assert_eq!(status_text(TaskStatus::Completed), "Completed");
}

#[test]
fn new_task_has_no_id_and_is_todo() {
    let t = new_task(
        "Write spec".to_string(),
        "Alice".to_string(),
        "2024-01-01 00:00:00 UTC".to_string(),
    );
    assert_eq!(t.id, None);
    assert_eq!(t.summary, "Write spec");
    assert_eq!(t.assignee, "Alice");
    assert_eq!(status_code(t.status), 0);
    assert_eq!(t.created, "2024-01-01 00:00:00 UTC");
}

#[test]
fn new_task_now_stamps_a_parseable_utc_time() {
    let t = new_task_now("Write spec".to_string(), "Alice".to_string());
    assert_eq!(t.id, None);
    assert_eq!(status_code(t.status), 0);
    let created = t.created;
    assert!(created.ends_with(" UTC"));
    let naive = created.trim_end_matches(" UTC");
    assert!(chrono::NaiveDateTime::parse_from_str(naive, "%Y-%m-%d %H:%M:%S%.f").is_ok());
}
