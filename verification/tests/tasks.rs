use gtasks::task::{apply_update, complete_now, default_tasklist_id, due_timestamp, mark_completed, new_task, task_query, TaskError, TaskFields};

fn sample() -> TaskFields {
    TaskFields {
        id: Some("t1".to_string()),
        title: Some("Buy milk".to_string()),
        status: Some("needsAction".to_string()),
        due: Some("2024-05-01T00:00:00.000Z".to_string()),
        notes: None,
        completed: None,
    }
}

#[test]
fn default_list_is_used_without_a_list() {
    assert_eq!(default_tasklist_id(None), "@default");
    assert_eq!(default_tasklist_id(Some("abc123")), "abc123");
}

#[test]
fn due_text_is_the_start_of_the_day() {
    assert_eq!(due_timestamp("2024-07-04"), Ok("2024-07-04T00:00:00.000Z".to_string()));
    assert_eq!(due_timestamp("07/04/2024"), Err(TaskError::InvalidDue));
}

#[test]
fn new_task_carries_what_was_given() {
    let t = new_task("Write report", Some("2024-12-24"), Some("two pages")).unwrap();
    assert_eq!(t.id, None);
    assert_eq!(t.title.as_deref(), Some("Write report"));
    assert_eq!(t.due.as_deref(), Some("2024-12-24T00:00:00.000Z"));
    assert_eq!(t.notes.as_deref(), Some("two pages"));
    assert_eq!(t.status, None);
    assert_eq!(t.completed, None);

    let t = new_task("Plain", None, None).unwrap();
    assert_eq!(t.due, None);
    assert_eq!(t.notes, None);
}

#[test]
fn new_task_with_bad_due_is_refused() {
    assert!(matches!(new_task("x", Some("soon"), None), Err(TaskError::InvalidDue)));
    assert_eq!(TaskError::InvalidDue.message(), "日付の形式が不正です (YYYY-MM-DD)");
}

#[test]
fn update_replaces_only_what_is_given() {
    let t = apply_update(sample(), Some("Buy oat milk"), None, None).unwrap();
    assert_eq!(t.title.as_deref(), Some("Buy oat milk"));
    assert_eq!(t.due.as_deref(), Some("2024-05-01T00:00:00.000Z"));
    assert_eq!(t.status.as_deref(), Some("needsAction"));
    assert_eq!(t.id.as_deref(), Some("t1"));

    let t = apply_update(sample(), None, Some("2024-06-02"), Some("note")).unwrap();
    assert_eq!(t.title.as_deref(), Some("Buy milk"));
    assert_eq!(t.due.as_deref(), Some("2024-06-02T00:00:00.000Z"));
    assert_eq!(t.notes.as_deref(), Some("note"));
}

#[test]
fn update_without_changes_keeps_the_task() {
    let t = apply_update(sample(), None, None, None).unwrap();
    assert_eq!(t.title.as_deref(), Some("Buy milk"));
    assert_eq!(t.due.as_deref(), Some("2024-05-01T00:00:00.000Z"));
    assert_eq!(t.notes, None);
}

#[test]
fn update_with_bad_due_is_refused() {
    assert!(matches!(apply_update(sample(), Some("t"), Some("2024-02-31"), None), Err(TaskError::InvalidDue)));
}

#[test]
fn completing_marks_status_and_time() {
    let t = mark_completed(sample(), "2024-05-02T10:00:00+00:00".to_string());
    assert_eq!(t.status.as_deref(), Some("completed"));
    assert_eq!(t.completed.as_deref(), Some("2024-05-02T10:00:00+00:00"));
    assert_eq!(t.title.as_deref(), Some("Buy milk"));

    let t = complete_now(sample());
    assert_eq!(t.status.as_deref(), Some("completed"));
    assert!(t.completed.as_deref().unwrap().ends_with("+00:00"));
    assert_eq!(t.due.as_deref(), Some("2024-05-01T00:00:00.000Z"));
}

#[test]
fn query_shows_hidden_with_completed() {
    let q = task_query("list1", None, true).unwrap();
    assert_eq!(q.list_id, "list1");
    assert!(q.show_completed && q.show_hidden);
    assert_eq!(q.due_min, None);
    assert_eq!(q.due_max, None);

    let q = task_query("list1", Some("2024-03-01..2024-03-31"), false).unwrap();
    assert!(!q.show_completed && !q.show_hidden);
    assert_eq!(q.due_min.as_deref(), Some("2024-03-01T00:00:00.000Z"));
    assert_eq!(q.due_max.as_deref(), Some("2024-04-01T00:00:00.000Z"));

    assert!(task_query("list1", Some("2024-03-31..2024-03-01"), false).is_err());
}
