use vstd::prelude::*;
use vstd::string::*;
use vstd::utf8::{
    decode_utf8, encode_utf8, is_ascii_chars, is_ascii_chars_concat, is_ascii_chars_encode_utf8,
    is_char_boundary, is_char_boundary_iff_is_leading_byte, is_leading_byte_width_1, valid_utf8,
};

use crate::date::{date_text, Date};
use crate::due::{day_start, midnight};
use crate::task::{text_of, TaskFields, TaskListInfo};
use crate::text::{lemma_zero_padded_shape, pow10, same_text, zero_padded};

verus! {

broadcast use vstd::utf8::group_utf8_lib;

/// The characters of each line.
pub open spec fn lines_of(v: Seq<String>) -> Seq<Seq<char>> {
    v.map_values(|s: String| s@)
}

/// An optional text, or a fallback in its place.
pub open spec fn or_text(o: Option<Seq<char>>, fallback: Seq<char>) -> Seq<char> {
    match o {
        Some(t) => t,
        None => fallback,
    }
}

/// The first ten bytes of a due timestamp, its date, as `str::get(..10)` gives
/// them; nothing when the text is shorter or ten bytes split a character (the
/// end of a text is a character boundary, a place past it is not).
pub open spec fn due_date_part(due: Seq<char>) -> Seq<char> {
    let b = encode_utf8(due);
    if is_char_boundary(b, 10) {
        decode_utf8(b.subrange(0, 10))
    } else {
        Seq::empty()
    }
}

/// For the years 0 to 9999, the date shown for a due timestamp that this tool
/// wrote (the start of a day) is that day's `YYYY-MM-DD` text.
pub proof fn lemma_due_shows_its_date(d: Date)
    requires
        d.valid(),
        0 <= d.year <= 9999,
    ensures
        due_date_part(day_start(d)) == date_text(d),
{
    reveal_strlit("T00:00:00.000Z");
    assert(pow10(2) == 100 && pow10(4) == 10000) by {
        reveal_with_fuel(pow10, 5);
    }
    lemma_zero_padded_shape(d.year as nat, 4);
    lemma_zero_padded_shape(d.month as nat, 2);
    lemma_zero_padded_shape(d.day as nat, 2);
    let t = date_text(d);
    let c = day_start(d);
    assert(t.len() == 10);
    assert(is_ascii_chars(t)) by {
        assert forall|i: int| 0 <= i < t.len() implies '\0' <= #[trigger] t[i] <= '\u{7f}' by {
            if i < 4 {
                assert(t[i] == zero_padded(d.year as nat, 4)[i]);
            } else if i == 4 || i == 7 {
            } else if i < 7 {
                assert(t[i] == zero_padded(d.month as nat, 2)[i - 5]);
            } else {
                assert(t[i] == zero_padded(d.day as nat, 2)[i - 8]);
            }
        }
    }
    assert(is_ascii_chars(midnight()));
    assert(c == t + midnight());
    is_ascii_chars_concat(c, t, midnight());
    is_ascii_chars_encode_utf8(c);
    is_ascii_chars_encode_utf8(t);
    let b = encode_utf8(c);
    assert(b.len() == 24);
    assert(valid_utf8(b));
    assert(c[10] == 'T');
    assert(b[10] == c[10] as u8);
    assert(is_leading_byte_width_1(b[10]));
    is_char_boundary_iff_is_leading_byte(b, 10);
    assert(b.subrange(0, 10) =~= encode_utf8(t)) by {
        assert forall|i: int| 0 <= i < 10 implies b.subrange(0, 10)[i] == encode_utf8(t)[i] by {
            assert(c[i] == t[i]);
            assert(b[i] == c[i] as u8);
            assert(encode_utf8(t)[i] == t[i] as u8);
        }
    }
}

/// The box that marks a task done or open.
pub open spec fn status_mark(task: TaskFields) -> Seq<char> {
    if text_of(task.status) == Some("completed"@) {
        "[x]"@
    } else {
        "[ ]"@
    }
}

/// The line that shows a task.
pub open spec fn task_line(task: TaskFields) -> Seq<char> {
    "  "@ + status_mark(task) + " "@ + or_text(text_of(task.title), "(無題)"@) + " (due: "@
        + match text_of(task.due) {
        Some(d) => due_date_part(d),
        None => Seq::empty(),
    } + ") [id: "@ + or_text(text_of(task.id), "?"@) + "]"@
}

/// The lines that show a task: its line, then its notes when it has some.
pub open spec fn task_lines(task: TaskFields) -> Seq<Seq<char>> {
    match text_of(task.notes) {
        Some(n) => if n.len() > 0 {
            seq![task_line(task), "      notes: "@ + n]
        } else {
            seq![task_line(task)]
        },
        None => seq![task_line(task)],
    }
}

/// The lines that show each task in turn.
pub open spec fn all_task_lines(tasks: Seq<TaskFields>) -> Seq<Seq<char>>
    decreases tasks.len(),
{
    if tasks.len() == 0 {
        Seq::empty()
    } else {
        all_task_lines(tasks.drop_last()) + task_lines(tasks.last())
    }
}

/// Appends `text`, or `fallback` when there is none.
fn append_or(out: &mut String, text: &Option<String>, fallback: &str)
    ensures
        final(out)@ == old(out)@ + or_text(text_of(*text), fallback@),
{
    match text {
        Some(t) => out.append(t.as_str()),
        None => out.append(fallback),
    }
}

/// Appends the date part of a due timestamp.
fn append_due_date(out: &mut String, due: &str)
    ensures
        final(out)@ == old(out)@ + due_date_part(due@),
{
    if due.is_char_boundary(10) {
        let (head, _tail) = due.split_at(10);
        assert(head@ == decode_utf8(encode_utf8(head@)));
        out.append(head);
    } else {
        assert(due_date_part(due@) =~= Seq::<char>::empty());
        assert(old(out)@ + Seq::<char>::empty() =~= old(out)@);
    }
}

/// The line that shows a task.
pub fn render_task_line(task: &TaskFields) -> (line: String)
    ensures
        line@ == task_line(*task),
{
    let done = match &task.status {
        Some(s) => same_text(s.as_str(), "completed"),
        None => false,
    };
    let mut line = String::new();
    line.append("  ");
    if done {
        line.append("[x]");
    } else {
        line.append("[ ]");
    }
    line.append(" ");
    append_or(&mut line, &task.title, "(無題)");
    line.append(" (due: ");
    match &task.due {
        Some(d) => append_due_date(&mut line, d.as_str()),
        None => {},
    }
    line.append(") [id: ");
    append_or(&mut line, &task.id, "?");
    line.append("]");
    assert(line@ =~= task_line(*task));
    line
}

/// The lines that show a task: its line, then its notes when it has some.
pub fn render_task(task: &TaskFields) -> (lines: Vec<String>)
    ensures
        lines_of(lines@) == task_lines(*task),
{
    let mut lines: Vec<String> = Vec::new();
    lines.push(render_task_line(task));
    match &task.notes {
        Some(n) => {
            if !n.as_str().is_empty() {
                let mut line = String::new();
                line.append("      notes: ");
                line.append(n.as_str());
                lines.push(line);
            }
        },
        None => {},
    }
    assert(lines_of(lines@) =~= task_lines(*task));
    lines
}

/// Appends the lines of each task in turn.
fn append_task_lines(out: &mut Vec<String>, tasks: &Vec<TaskFields>)
    ensures
        lines_of(final(out)@) == lines_of(old(out)@) + all_task_lines(tasks@),
{
    let ghost start = lines_of(out@);
    let mut i: usize = 0;
    while i < tasks.len()
        invariant
            i <= tasks.len(),
            lines_of(out@) == start + all_task_lines(tasks@.take(i as int)),
        decreases tasks.len() - i,
    {
        let lines = render_task(&tasks[i]);
        let mut j: usize = 0;
        let ghost before = lines_of(out@);
        while j < lines.len()
            invariant
                j <= lines.len(),
                lines_of(out@) == before + lines_of(lines@).take(j as int),
            decreases lines.len() - j,
        {
            let ghost prev = out@;
            let line = lines[j].clone();
            assert(line@ == lines@[j as int]@);
            out.push(line);
            assert(out@ == prev.push(line));
            assert(lines_of(out@) =~= lines_of(prev).push(line@));
            assert(lines_of(out@) =~= before + lines_of(lines@).take(j + 1));
            j = j + 1;
        }
        assert(tasks@.take(i + 1).drop_last() =~= tasks@.take(i as int));
        assert(lines_of(lines@).take(j as int) =~= lines_of(lines@));
        i = i + 1;
        assert(lines_of(out@) =~= start + all_task_lines(tasks@.take(i as int)));
    }
    assert(tasks@.take(i as int) =~= tasks@);
}

/// The lines that show the tasks of one list, or a notice when it has none.
pub open spec fn task_list_lines(tasks: Seq<TaskFields>) -> Seq<Seq<char>> {
    if tasks.len() == 0 {
        seq!["タスクがありません。"@]
    } else {
        all_task_lines(tasks)
    }
}

/// The lines that show the tasks of one list, or a notice when it has none.
pub fn render_tasks(tasks: &Vec<TaskFields>) -> (lines: Vec<String>)
    ensures
        lines_of(lines@) == task_list_lines(tasks@),
{
    let mut lines: Vec<String> = Vec::new();
    if tasks.len() == 0 {
        lines.push("タスクがありません。".to_owned());
        assert(lines_of(lines@) =~= task_list_lines(tasks@));
    } else {
        append_task_lines(&mut lines, tasks);
        assert(lines_of(lines@) =~= task_list_lines(tasks@));
    }
    lines
}

/// The line that shows a task list.
pub open spec fn tasklist_line(list: TaskListInfo) -> Seq<char> {
    "  "@ + or_text(text_of(list.title), "(無題)"@) + " (id: "@ + or_text(text_of(list.id), "?"@)
        + ")"@
}

/// The lines that show the task lists, or a notice when there are none.
pub open spec fn tasklists_lines(lists: Seq<TaskListInfo>) -> Seq<Seq<char>> {
    if lists.len() == 0 {
        seq!["タスクリストがありません。"@]
    } else {
        lists.map_values(|l: TaskListInfo| tasklist_line(l))
    }
}

/// The lines that show the task lists, or a notice when there are none.
pub fn render_tasklists(lists: &Vec<TaskListInfo>) -> (lines: Vec<String>)
    ensures
        lines_of(lines@) == tasklists_lines(lists@),
{
    let mut lines: Vec<String> = Vec::new();
    if lists.len() == 0 {
        lines.push("タスクリストがありません。".to_owned());
        assert(lines_of(lines@) =~= tasklists_lines(lists@));
        return lines;
    }
    let mut i: usize = 0;
    while i < lists.len()
        invariant
            i <= lists.len(),
            lines_of(lines@) =~= lists@.take(i as int).map_values(|l: TaskListInfo| tasklist_line(l)),
        decreases lists.len() - i,
    {
        let list = &lists[i];
        let mut line = String::new();
        line.append("  ");
        append_or(&mut line, &list.title, "(無題)");
        line.append(" (id: ");
        append_or(&mut line, &list.id, "?");
        line.append(")");
        assert(line@ =~= tasklist_line(*list));
        let ghost prev = lines@;
        lines.push(line);
        assert(lines_of(lines@) =~= lines_of(prev).push(tasklist_line(lists@[i as int])));
        assert(lists@.take(i + 1).map_values(|l: TaskListInfo| tasklist_line(l)) =~= lists@.take(i as int).map_values(|l: TaskListInfo| tasklist_line(l)).push(tasklist_line(lists@[i as int])));
        i = i + 1;
        assert(lines_of(lines@) =~= lists@.take(i as int).map_values(|l: TaskListInfo| tasklist_line(l)));
    }
    assert(lists@.take(i as int) =~= lists@);
    lines
}

/// The id to fetch a list's tasks by, and the name to head them with: an
/// empty id and `(無題)` stand in for missing ones.
pub fn section_target(list: &TaskListInfo) -> (r: (String, String))
    ensures
        r.0@ == or_text(text_of(list.id), Seq::empty()),
        r.1@ == or_text(text_of(list.title), "(無題)"@),
{
    let mut id = String::new();
    proof { reveal_strlit(""); }
    append_or(&mut id, &list.id, "");
    assert(Seq::<char>::empty() + or_text(text_of(list.id), ""@) =~= or_text(text_of(list.id), Seq::empty()));
    let mut name = String::new();
    append_or(&mut name, &list.title, "(無題)");
    assert(Seq::<char>::empty() + or_text(text_of(list.title), "(無題)"@) =~= or_text(text_of(list.title), "(無題)"@));
    (id, name)
}

/// The lines that show one list's tasks when listing every list: a heading,
/// the tasks, and a blank line; nothing for a list without tasks.
pub open spec fn section_lines(name: Seq<char>, tasks: Seq<TaskFields>) -> Seq<Seq<char>> {
    if tasks.len() == 0 {
        Seq::empty()
    } else {
        seq!["## "@ + name] + all_task_lines(tasks) + seq![Seq::<char>::empty()]
    }
}

/// A task shows as its line, followed by a notes line exactly when it has
/// notes that are not empty.
pub proof fn lemma_task_shows_notes(task: TaskFields)
    ensures
        task_lines(task)[0] == task_line(task),
        (task.notes matches Some(n) && n@.len() > 0) ==> task_lines(task) == seq![task_line(task), "      notes: "@ + task.notes.unwrap()@],
        !(task.notes matches Some(n) && n@.len() > 0) ==> task_lines(task) == seq![task_line(task)],
{
}

/// Listing several tasks shows each task's lines, notes included, one task
/// after another in order.
pub proof fn lemma_all_task_lines_in_order(tasks: Seq<TaskFields>)
    ensures
        all_task_lines(tasks) == tasks.map_values(|t: TaskFields| task_lines(t)).flatten(),
    decreases tasks.len(),
{
    if tasks.len() > 0 {
        lemma_all_task_lines_in_order(tasks.drop_last());
        let f = |t: TaskFields| task_lines(t);
        assert(tasks.map_values(f) =~= tasks.drop_last().map_values(f).push(task_lines(tasks.last())));
        tasks.drop_last().map_values(f).lemma_flatten_push(task_lines(tasks.last()));
    } else {
        assert(tasks.map_values(|t: TaskFields| task_lines(t)) =~= Seq::<Seq<Seq<char>>>::empty());
    }
}

/// In the listing of every list, a list with tasks shows as a heading, then
/// its tasks exactly as the listing of that one list shows them, then a blank
/// line; a list without tasks shows nothing.
pub proof fn lemma_section_is_list_listing(name: Seq<char>, tasks: Seq<TaskFields>)
    ensures
        tasks.len() > 0 ==> section_lines(name, tasks) == seq!["## "@ + name] + task_list_lines(tasks) + seq![Seq::<char>::empty()],
        tasks.len() == 0 ==> section_lines(name, tasks).len() == 0,
{
}

/// The notice that closes a listing of every list: shown when no list had tasks.
pub open spec fn closing_lines(total: nat) -> Seq<Seq<char>> {
    if total == 0 {
        seq!["タスクがありません。"@]
    } else {
        Seq::empty()
    }
}

/// The state of a listing of every list: how many tasks have been shown so far.
pub struct ListingProgress {
    pub total: usize,
}

impl ListingProgress {
    /// A listing that has shown nothing yet.
    pub fn new() -> (p: ListingProgress)
        ensures
            p.total == 0,
    {
        ListingProgress { total: 0 }
    }

    /// Takes in the tasks of the next list and gives the lines to show for it.
    pub fn record(&mut self, list_name: &str, tasks: &Vec<TaskFields>) -> (lines: Vec<String>)
        requires
            old(self).total + tasks.len() <= usize::MAX,
        ensures
            final(self).total == old(self).total + tasks.len(),
            lines_of(lines@) == section_lines(list_name@, tasks@),
    {
        let mut lines: Vec<String> = Vec::new();
        if tasks.len() == 0 {
            assert(lines_of(lines@) =~= section_lines(list_name@, tasks@));
            return lines;
        }
        let mut heading = String::new();
        heading.append("## ");
        heading.append(list_name);
        let ghost head = heading@;
        lines.push(heading);
        assert(lines_of(lines@) =~= seq![head]);
        append_task_lines(&mut lines, tasks);
        let ghost mid = lines@;
        let blank = String::new();
        lines.push(blank);
        assert(lines_of(lines@) =~= lines_of(mid).push(Seq::<char>::empty()));
        assert(lines_of(lines@) =~= section_lines(list_name@, tasks@));
        self.total = self.total + tasks.len();
        lines
    }

    /// The lines that close the listing.
    pub fn finish(&self) -> (lines: Vec<String>)
        ensures
            lines_of(lines@) == closing_lines(self.total as nat),
    {
        let mut lines: Vec<String> = Vec::new();
        if self.total == 0 {
            lines.push("タスクがありません。".to_owned());
        }
        assert(lines_of(lines@) =~= closing_lines(self.total as nat));
        lines
    }
}

/// The number of tasks in lists of the given sizes.
pub open spec fn total_of(sizes: Seq<nat>) -> nat
    decreases sizes.len(),
{
    if sizes.len() == 0 {
        0
    } else {
        total_of(sizes.drop_last()) + sizes.last()
    }
}

/// A listing of every list closes with the notice exactly when none of the
/// lists had a task.
pub proof fn lemma_notice_iff_all_empty(sizes: Seq<nat>)
    ensures
        (closing_lines(total_of(sizes)).len() == 1) <==> (forall|i: int| 0 <= i < sizes.len() ==> sizes[i] == 0),
        (closing_lines(total_of(sizes)).len() == 0) <==> (exists|i: int| 0 <= i < sizes.len() && sizes[i] > 0),
    decreases sizes.len(),
{
    if sizes.len() > 0 {
        let rest = sizes.drop_last();
        lemma_notice_iff_all_empty(rest);
        assert forall|i: int| 0 <= i < rest.len() implies rest[i] == sizes[i] by {}
        if total_of(sizes) == 0 {
            assert forall|i: int| 0 <= i < sizes.len() implies sizes[i] == 0 by {
                if i < rest.len() {
                    assert(rest[i] == sizes[i]);
                }
            }
        } else if sizes.last() == 0 {
            let j = choose|i: int| 0 <= i < rest.len() && rest[i] > 0;
            assert(sizes[j] > 0);
        } else {
            assert(sizes[sizes.len() - 1] > 0);
        }
    }
}

/// What a command reports when it is done with a list or a task.
#[derive(Clone, Copy, Debug, PartialEq, Eq, Structural)]
pub enum Outcome {
    TasklistDeleted,
    TaskCompleted,
    TaskUpdated,
    TaskDeleted,
}

impl Outcome {
    pub open spec fn text(self) -> Seq<char> {
        match self {
            Outcome::TasklistDeleted => "タスクリストを削除しました: "@,
            Outcome::TaskCompleted => "タスクを完了にしました: "@,
            Outcome::TaskUpdated => "タスクを更新しました: "@,
            Outcome::TaskDeleted => "タスクを削除しました: "@,
        }
    }

    fn lead(&self) -> (m: &'static str)
        ensures
            m@ == self.text(),
    {
        match self {
            Outcome::TasklistDeleted => "タスクリストを削除しました: ",
            Outcome::TaskCompleted => "タスクを完了にしました: ",
            Outcome::TaskUpdated => "タスクを更新しました: ",
            Outcome::TaskDeleted => "タスクを削除しました: ",
        }
    }

    /// The line that reports the outcome for the list or task `id`.
    pub fn line(&self, id: &str) -> (s: String)
        ensures
            s@ == self.text() + id@,
    {
        let mut s = String::new();
        s.append(self.lead());
        s.append(id);
        s
    }
}

/// The line that reports a created list or task: its title and id, `?` for
/// either that is missing.
pub open spec fn created_line(lead: Seq<char>, title: Option<Seq<char>>, id: Option<Seq<char>>) -> Seq<char> {
    lead + or_text(title, "?"@) + " [id: "@ + or_text(id, "?"@) + "]"@
}

fn render_created(lead: &str, title: &Option<String>, id: &Option<String>) -> (s: String)
    ensures
        s@ == created_line(lead@, text_of(*title), text_of(*id)),
{
    let mut s = String::new();
    s.append(lead);
    append_or(&mut s, title, "?");
    s.append(" [id: ");
    append_or(&mut s, id, "?");
    s.append("]");
    assert(s@ =~= created_line(lead@, text_of(*title), text_of(*id)));
    s
}

/// The line that reports a created task list.
pub fn tasklist_created_line(created: &TaskListInfo) -> (s: String)
    ensures
        s@ == created_line("タスクリストを作成しました: "@, text_of(created.title), text_of(created.id)),
{
    render_created("タスクリストを作成しました: ", &created.title, &created.id)
}

/// The line that reports a created task.
pub fn task_created_line(created: &TaskFields) -> (s: String)
    ensures
        s@ == created_line("タスクを作成しました: "@, text_of(created.title), text_of(created.id)),
{
    render_created("タスクを作成しました: ", &created.title, &created.id)
}

} // verus!
