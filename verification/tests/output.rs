use gtasks::render::{
    render_task, render_task_line, render_tasklists, render_tasks, section_target, task_created_line,
    tasklist_created_line, ListingProgress, Outcome,
};
use gtasks::task::{new_task, TaskFields, TaskListInfo};

fn task(id: Option<&str>, title: Option<&str>, status: Option<&str>, due: Option<&str>, notes: Option<&str>) -> TaskFields {
    TaskFields {
        id: id.map(|s| s.to_string()),
        title: title.map(|s| s.to_string()),
        status: status.map(|s| s.to_string()),
        due: due.map(|s| s.to_string()),
        notes: notes.map(|s| s.to_string()),
        completed: None,
    }
}

#[test]
fn open_task_line() {
    let t = task(Some("a1"), Some("Call Bob"), Some("needsAction"), Some("2024-05-01T00:00:00.000Z"), None);
    assert_eq!(render_task_line(&t), "  [ ] Call Bob (due: 2024-05-01) [id: a1]");
}

#[test]
fn done_task_line_with_defaults() {
    let t = task(None, None, Some("completed"), None, None);
    assert_eq!(render_task_line(&t), "  [x] (無題) (due: ) [id: ?]");
}

#[test]
fn short_or_split_due_shows_nothing() {
    let t = task(Some("a"), Some("x"), None, Some("2024-05"), None);
    assert_eq!(render_task_line(&t), "  [ ] x (due: ) [id: a]");
    let t = task(Some("a"), Some("x"), None, Some("2024-05-0あ1"), None);
    assert_eq!(render_task_line(&t), "  [ ] x (due: ) [id: a]");
    let t = task(Some("a"), Some("x"), None, Some("2024-05-01"), None);
    assert_eq!(render_task_line(&t), "  [ ] x (due: 2024-05-01) [id: a]");
}

#[test]
fn due_written_by_the_tool_shows_its_date() {
    let t = new_task("Plan", Some("2031-11-09"), None).unwrap();
    assert_eq!(render_task_line(&t), "  [ ] Plan (due: 2031-11-09) [id: ?]");
}

#[test]
fn notes_line_only_when_notes_are_not_empty() {
    let t = task(Some("a"), Some("x"), None, None, Some("bring cash"));
    assert_eq!(render_task(&t), vec!["  [ ] x (due: ) [id: a]".to_string(), "      notes: bring cash".to_string()]);
    let t = task(Some("a"), Some("x"), None, None, Some(""));
    assert_eq!(render_task(&t), vec!["  [ ] x (due: ) [id: a]".to_string()]);
}

#[test]
fn empty_list_says_so() {
    assert_eq!(render_tasks(&vec![]), vec!["タスクがありません。".to_string()]);
    let lines = render_tasks(&vec![task(Some("1"), Some("a"), None, None, None), task(Some("2"), Some("b"), None, None, Some("n"))]);
    assert_eq!(
        lines,
        vec![
            "  [ ] a (due: ) [id: 1]".to_string(),
            "  [ ] b (due: ) [id: 2]".to_string(),
            "      notes: n".to_string(),
        ]
    );
}

#[test]
fn tasklist_lines() {
    assert_eq!(render_tasklists(&vec![]), vec!["タスクリストがありません。".to_string()]);
    let lists = vec![
        TaskListInfo { id: Some("L1".to_string()), title: Some("Work".to_string()) },
        TaskListInfo { id: None, title: None },
    ];
    assert_eq!(render_tasklists(&lists), vec!["  Work (id: L1)".to_string(), "  (無題) (id: ?)".to_string()]);
}

#[test]
fn section_targets_fall_back() {
    let (id, name) = section_target(&TaskListInfo { id: None, title: None });
    assert_eq!(id, "");
    assert_eq!(name, "(無題)");
    let (id, name) = section_target(&TaskListInfo { id: Some("L".to_string()), title: Some("Home".to_string()) });
    assert_eq!(id, "L");
    assert_eq!(name, "Home");
}

#[test]
fn listing_every_list() {
    let mut p = ListingProgress::new();
    assert_eq!(p.record("Empty", &vec![]), Vec::<String>::new());
    let lines = p.record("Work", &vec![task(Some("1"), Some("a"), None, None, None)]);
    assert_eq!(lines, vec!["## Work".to_string(), "  [ ] a (due: ) [id: 1]".to_string(), String::new()]);
    assert_eq!(p.total, 1);
    assert_eq!(p.finish(), Vec::<String>::new());
}

#[test]
fn listing_with_no_tasks_says_so() {
    let mut p = ListingProgress::new();
    p.record("A", &vec![]);
    p.record("B", &vec![]);
    assert_eq!(p.finish(), vec!["タスクがありません。".to_string()]);
}

#[test]
fn outcome_lines() {
    assert_eq!(Outcome::TaskDeleted.line("t9"), "タスクを削除しました: t9");
    assert_eq!(Outcome::TaskCompleted.line("t9"), "タスクを完了にしました: t9");
    assert_eq!(Outcome::TaskUpdated.line("t9"), "タスクを更新しました: t9");
    assert_eq!(Outcome::TasklistDeleted.line("L"), "タスクリストを削除しました: L");
}

#[test]
fn created_lines() {
    let l = TaskListInfo { id: Some("L2".to_string()), title: Some("Trips".to_string()) };
    assert_eq!(tasklist_created_line(&l), "タスクリストを作成しました: Trips [id: L2]");
    let t = task(None, None, None, None, None);
    assert_eq!(task_created_line(&t), "タスクを作成しました: ? [id: ?]");
}
