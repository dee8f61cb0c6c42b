use vstd::prelude::*;
use vstd::string::*;

use crate::date::Date;
use crate::due::{day_start, due_filter, parse_due_filter, parse_ymd, read_ymd, start_of_day, DueFilterError};

verus! {

/// The characters of an optional text.
pub open spec fn text_of(o: Option<String>) -> Option<Seq<char>> {
    match o {
        Some(s) => Some(s@),
        None => None,
    }
}

/// The characters of an optional borrowed text.
pub open spec fn str_of(o: Option<&str>) -> Option<Seq<char>> {
    match o {
        Some(s) => Some(s@),
        None => None,
    }
}

/// The fields of a task that this tool reads and writes.
pub struct TaskFields {
    pub id: Option<String>,
    pub title: Option<String>,
    pub status: Option<String>,
    pub due: Option<String>,
    pub notes: Option<String>,
    pub completed: Option<String>,
}

/// The fields of a task list that this tool reads.
pub struct TaskListInfo {
    pub id: Option<String>,
    pub title: Option<String>,
}

/// A new task list with a title.
pub fn new_tasklist(title: &str) -> (l: TaskListInfo)
    ensures
        l.id is None,
        text_of(l.title) == Some(title@),
{
    TaskListInfo { id: None, title: Some(title.to_owned()) }
}

/// Why a task could not be built.
#[derive(Clone, Copy, Debug, PartialEq, Eq, Structural)]
pub enum TaskError {
    /// The due date is not a `YYYY-MM-DD` date.
    InvalidDue,
}

impl TaskError {
    pub open spec fn text(self) -> Seq<char> {
        "日付の形式が不正です (YYYY-MM-DD)"@
    }

    /// The message shown for the error.
    pub fn message(&self) -> (m: &'static str)
        ensures
            m@ == self.text(),
    {
        "日付の形式が不正です (YYYY-MM-DD)"
    }
}

/// The task list to work on: the one given, or the user's default list.
pub fn default_tasklist_id(tasklist: Option<&str>) -> (id: String)
    ensures
        id@ == match tasklist {
            Some(t) => t@,
            None => "@default"@,
        },
{
    match tasklist {
        Some(t) => t.to_owned(),
        None => "@default".to_owned(),
    }
}

/// The due timestamp that a `YYYY-MM-DD` text names: the start of that day.
pub open spec fn due_of(text: Seq<char>) -> Option<Seq<char>> {
    match parse_ymd(text) {
        Some(d) => Some(day_start(d)),
        None => None,
    }
}

/// The due timestamp for a `YYYY-MM-DD` text.
pub fn due_timestamp(text: &str) -> (r: Result<String, TaskError>)
    ensures
        match due_of(text@) {
            Some(t) => r matches Ok(s) && s@ == t,
            None => r == Err::<String, TaskError>(TaskError::InvalidDue),
        },
{
    match read_ymd(text) {
        Some(d) => Ok(start_of_day(&d)),
        None => Err(TaskError::InvalidDue),
    }
}

/// The field value after an optional replacement.
pub open spec fn replaced(old: Option<Seq<char>>, new: Option<Seq<char>>) -> Option<Seq<char>> {
    match new {
        Some(n) => Some(n),
        None => old,
    }
}

/// A due text that is given but names no date.
pub open spec fn bad_due(due: Option<&str>) -> bool {
    due matches Some(d) && due_of(d@) is None
}

/// The due timestamp after an optional new due date, when that date is good.
pub open spec fn replaced_due(old: Option<Seq<char>>, due: Option<&str>) -> Option<Seq<char>> {
    match due {
        Some(d) => due_of(d@),
        None => old,
    }
}

/// A new task with a title, and an optional due date and notes.
pub fn new_task(title: &str, due: Option<&str>, notes: Option<&str>) -> (r: Result<TaskFields, TaskError>)
    ensures
        bad_due(due) <==> r is Err,
        r matches Err(e) ==> e == TaskError::InvalidDue,
        r matches Ok(t) ==> {
            &&& t.id is None
            &&& text_of(t.title) == Some(title@)
            &&& t.status is None
            &&& text_of(t.due) == replaced_due(None, due)
            &&& text_of(t.notes) == str_of(notes)
            &&& t.completed is None
        },
{
    let due_field = match due {
        Some(d) => match due_timestamp(d) {
            Ok(s) => Some(s),
            Err(e) => return Err(e),
        },
        None => None,
    };
    let notes_field = match notes {
        Some(n) => Some(n.to_owned()),
        None => None,
    };
    Ok(TaskFields {
        id: None,
        title: Some(title.to_owned()),
        status: None,
        due: due_field,
        notes: notes_field,
        completed: None,
    })
}

/// A task with the given title, due date and notes replaced; the fields not
/// given, and all others, stay as they were.
pub fn apply_update(task: TaskFields, title: Option<&str>, due: Option<&str>, notes: Option<&str>) -> (r: Result<TaskFields, TaskError>)
    ensures
        bad_due(due) <==> r is Err,
        r matches Err(e) ==> e == TaskError::InvalidDue,
        r matches Ok(t) ==> {
            &&& t.id == task.id
            &&& text_of(t.title) == replaced(text_of(task.title), str_of(title))
            &&& t.status == task.status
            &&& text_of(t.due) == replaced_due(text_of(task.due), due)
            &&& text_of(t.notes) == replaced(text_of(task.notes), str_of(notes))
            &&& t.completed == task.completed
        },
{
    let mut task = task;
    if let Some(t) = title {
        task.title = Some(t.to_owned());
    }
    if let Some(d) = due {
        match due_timestamp(d) {
            Ok(s) => {
                task.due = Some(s);
            },
            Err(e) => {
                return Err(e);
            },
        }
    }
    if let Some(n) = notes {
        task.notes = Some(n.to_owned());
    }
    Ok(task)
}

/// A task marked done at the time `completed_at`.
pub fn mark_completed(task: TaskFields, completed_at: String) -> (t: TaskFields)
    ensures
        text_of(t.status) == Some("completed"@),
        t.completed == Some(completed_at),
        t.id == task.id,
        t.title == task.title,
        t.due == task.due,
        t.notes == task.notes,
{
    let mut task = task;
    task.status = Some("completed".to_owned());
    task.completed = Some(completed_at);
    task
}

/// RFC 3339 text of a time in UTC, as chrono writes it: it ends in the offset `+00:00`.
pub open spec fn utc_stamp(s: Seq<char>) -> bool {
    s.len() >= 6 && s.subrange(s.len() - 6, s.len() as int) == "+00:00"@
}

/// The current time in UTC as RFC 3339 text, from `chrono::Utc::now().to_rfc3339()`.
///
/// Trusted: chrono writes the offset of a UTC time as `+00:00` at the end (its
/// RFC 3339 writer with colons, minute precision and no `Z`). Which time it is
/// depends on the clock and is left unsaid.
#[verifier::external_body]
fn now_rfc3339() -> (s: String)
    ensures
        utc_stamp(s@),
{
    chrono::Utc::now().to_rfc3339()
}

/// A task marked done now, stamped with the current UTC time.
pub fn complete_now(task: TaskFields) -> (t: TaskFields)
    ensures
        text_of(t.status) == Some("completed"@),
        t.completed matches Some(c) && utc_stamp(c@),
        t.id == task.id,
        t.title == task.title,
        t.due == task.due,
        t.notes == task.notes,
{
    mark_completed(task, now_rfc3339())
}

/// The parameters of a request for the tasks of a list.
pub struct TaskQuery {
    pub list_id: String,
    pub show_completed: bool,
    pub show_hidden: bool,
    pub due_min: Option<String>,
    pub due_max: Option<String>,
}

/// The due window that a query asks for, when it asks for one.
pub open spec fn query_window(r: Result<TaskQuery, DueFilterError>) -> Result<(Seq<char>, Seq<char>), DueFilterError> {
    match r {
        Ok(q) => match (q.due_min, q.due_max) {
            (Some(lo), Some(hi)) => Ok((lo@, hi@)),
            _ => Ok((Seq::empty(), Seq::empty())),
        },
        Err(e) => Err(e),
    }
}

/// The request for the tasks of `list_id`: hidden tasks are shown exactly when
/// completed ones are, and a due filter, when given, bounds the due dates.
pub fn task_query(list_id: &str, due: Option<&str>, show_completed: bool) -> (r: Result<TaskQuery, DueFilterError>)
    ensures
        r matches Ok(q) ==> {
            &&& q.list_id@ == list_id@
            &&& q.show_completed == show_completed
            &&& q.show_hidden == show_completed
            &&& (due is None <==> q.due_min is None)
            &&& (due is None <==> q.due_max is None)
        },
        due is None ==> r is Ok,
        due is Some ==> exists|today: Date|
            today.valid() && query_window(r) == #[trigger] due_filter(due.unwrap()@, today),
        due is Some && due.unwrap()@ != "today"@ ==> forall|today: Date|
            query_window(r) == #[trigger] due_filter(due.unwrap()@, today),
{
    let mut query = TaskQuery {
        list_id: list_id.to_owned(),
        show_completed,
        show_hidden: show_completed,
        due_min: None,
        due_max: None,
    };
    if let Some(s) = due {
        match parse_due_filter(s) {
            Ok(b) => {
                query.due_min = Some(b.due_min);
                query.due_max = Some(b.due_max);
            },
            Err(e) => {
                return Err(e);
            },
        }
    }
    Ok(query)
}

} // verus!
