use vstd::prelude::*;
use vstd::string::*;

use crate::date::{date_text, local_today, parse_date, spec_parse_date, Date};
use crate::text::{dots_at, find_dots, has_dots, lemma_split_at_first, lemma_split_without_dots, same_text, split_on_dots};

verus! {

/// Why a due filter was refused.
#[derive(Clone, Copy, Debug, PartialEq, Eq, Structural)]
pub enum DueFilterError {
    /// A range does not have exactly two ends.
    MalformedRange,
    /// The first end of a range is not a date.
    InvalidStart,
    /// The second end of a range is not a date.
    InvalidEnd,
    /// The range ends before it starts.
    EndBeforeStart,
    /// A single date is not a date.
    InvalidDate,
    /// The last day of the filter has no next day.
    NoNextDay,
}

/// The text that the filter's dates are written in.
pub open spec fn ymd_format() -> Seq<char> {
    "%Y-%m-%d"@
}

/// The time of day appended to a date to make a due timestamp.
pub open spec fn midnight() -> Seq<char> {
    "T00:00:00.000Z"@
}

/// The text holds no `.`.
pub open spec fn dot_free(text: Seq<char>) -> bool {
    forall|i: int| 0 <= i < text.len() ==> text[i] != '.'
}

/// The date that a text names in `YYYY-MM-DD` form, as chrono reads it. The
/// guard states two things chrono's reading always meets (see `parse_date`):
/// the date it gives is a valid one, and it accepts no text that holds a `.`.
pub open spec fn parse_ymd(text: Seq<char>) -> Option<Date> {
    match spec_parse_date(text, ymd_format()) {
        Some((y, m, d)) => if dot_free(text) && (Date { year: y, month: m, day: d }).valid() {
            Some(Date { year: y, month: m, day: d })
        } else {
            None
        },
        None => None,
    }
}

/// The date that chrono reads from a `YYYY-MM-DD` text, taken as it comes.
pub open spec fn chrono_ymd(text: Seq<char>) -> Option<Date> {
    match spec_parse_date(text, ymd_format()) {
        Some((y, m, d)) => Some(Date { year: y, month: m, day: d }),
        None => None,
    }
}

/// A reading of a `YYYY-MM-DD` text: with the guard of `parse_ymd`, or as
/// chrono gives it. Every reading made by `read_ymd` is both.
pub open spec fn reading(text: Seq<char>, guarded: bool) -> Option<Date> {
    if guarded {
        parse_ymd(text)
    } else {
        chrono_ymd(text)
    }
}

/// The due timestamp at the start of a day.
pub open spec fn day_start(d: Date) -> Seq<char> {
    date_text(d) + midnight()
}

impl DueFilterError {
    pub open spec fn text(self) -> Seq<char> {
        match self {
            DueFilterError::MalformedRange => "日付範囲の形式が不正です (YYYY-MM-DD..YYYY-MM-DD)"@,
            DueFilterError::InvalidStart => "開始日の形式が不正です"@,
            DueFilterError::InvalidEnd => "終了日の形式が不正です"@,
            DueFilterError::EndBeforeStart => "終了日が開始日より前です"@,
            DueFilterError::InvalidDate => "日付の形式が不正です (YYYY-MM-DD)"@,
            DueFilterError::NoNextDay => "終了日の翌日を計算できません"@,
        }
    }

    /// The message shown for the error.
    pub fn message(&self) -> (m: &'static str)
        ensures
            m@ == self.text(),
    {
        match self {
            DueFilterError::MalformedRange => "日付範囲の形式が不正です (YYYY-MM-DD..YYYY-MM-DD)",
            DueFilterError::InvalidStart => "開始日の形式が不正です",
            DueFilterError::InvalidEnd => "終了日の形式が不正です",
            DueFilterError::EndBeforeStart => "終了日が開始日より前です",
            DueFilterError::InvalidDate => "日付の形式が不正です (YYYY-MM-DD)",
            DueFilterError::NoNextDay => "終了日の翌日を計算できません",
        }
    }
}

/// The first and last day that a filter text other than `today` selects.
pub open spec fn explicit_due_days(text: Seq<char>) -> Result<(Date, Date), DueFilterError> {
    explicit_due_days_by(text, true)
}

/// The first and last day that a filter text other than `today` selects, with
/// the dates read by the given reading.
pub open spec fn explicit_due_days_by(text: Seq<char>, guarded: bool) -> Result<(Date, Date), DueFilterError> {
    if has_dots(text) {
        let parts = split_on_dots(text);
        if parts.len() != 2 {
            Err(DueFilterError::MalformedRange)
        } else {
            match reading(parts[0], guarded) {
                None => Err(DueFilterError::InvalidStart),
                Some(start) => match reading(parts[1], guarded) {
                    None => Err(DueFilterError::InvalidEnd),
                    Some(end) => if end.before(start) {
                        Err(DueFilterError::EndBeforeStart)
                    } else {
                        Ok((start, end))
                    },
                },
            }
        }
    } else {
        match reading(text, guarded) {
            None => Err(DueFilterError::InvalidDate),
            Some(d) => Ok((d, d)),
        }
    }
}

/// The first and last day that a filter text selects, `today` being the given day.
pub open spec fn due_days(text: Seq<char>, today: Date) -> Result<(Date, Date), DueFilterError> {
    if text == "today"@ {
        Ok((today, today))
    } else {
        explicit_due_days(text)
    }
}

/// The half-open window of due timestamps for the days `start` to `end`:
/// from the start of `start` up to, not including, the start of the day after `end`.
pub open spec fn due_window(start: Date, end: Date) -> Result<(Seq<char>, Seq<char>), DueFilterError> {
    match end.next() {
        None => Err(DueFilterError::NoNextDay),
        Some(after) => Ok((day_start(start), day_start(after))),
    }
}

/// The window of due timestamps that a filter text other than `today` selects,
/// with every date taken as chrono reads it.
pub open spec fn chrono_due_filter(text: Seq<char>) -> Result<(Seq<char>, Seq<char>), DueFilterError> {
    match explicit_due_days_by(text, false) {
        Err(e) => Err(e),
        Ok((start, end)) => due_window(start, end),
    }
}

/// The window of due timestamps that a filter text selects.
pub open spec fn due_filter(text: Seq<char>, today: Date) -> Result<(Seq<char>, Seq<char>), DueFilterError> {
    match due_days(text, today) {
        Err(e) => Err(e),
        Ok((start, end)) => due_window(start, end),
    }
}

/// The exclusive upper bound selects exactly the days up to and including the
/// last day: a valid day falls on or before `end` exactly when it falls before
/// the day after `end`.
pub proof fn lemma_window_covers_last_day(end: Date, day: Date)
    requires
        end.valid(),
        day.valid(),
        end.next() is Some,
    ensures
        !end.before(day) <==> day.before(end.next().unwrap()),
{
    crate::date::lemma_next_is_successor(end, day);
}

/// A one-day range `D..D` selects the same window as the single date `D`.
pub proof fn lemma_one_day_range(d: Seq<char>, today: Date)
    requires
        parse_ymd(d) is Some,
        d != "today"@,
    ensures
        due_filter(d + seq!['.', '.'] + d, today) == due_filter(d, today),
{
    reveal_strlit("today");
    let r = d + seq!['.', '.'] + d;
    let n = d.len() as int;
    assert(dots_at(r, n));
    assert forall|j: int| 0 <= j < n implies !dots_at(r, j) by {
        assert(r[j] == d[j]);
    }
    assert(!has_dots(d)) by {
        assert forall|j: int| !dots_at(d, j) by {
            if 0 <= j < d.len() {
                assert(d[j] != '.');
            }
        }
    }
    lemma_split_at_first(r, n);
    assert(r.take(n) =~= d);
    assert(r.skip(n + 2) =~= d);
    lemma_split_without_dots(d);
    assert(split_on_dots(r) =~= seq![d, d]);
    assert(r != "today"@) by {
        assert(r.len() != 5 || r[0] != 't' || r[1] != 'o' || r[2] != 'd' || r[3] != 'a' || r[4] != 'y') by {
            if r.len() == 5 {
                assert(n * 2 + 2 == 5);
            }
        }
    }
}

/// Every window a filter selects runs from the start of a valid day to the
/// start of a later valid day, so it is never empty and covers whole days.
pub proof fn lemma_window_is_whole_days(text: Seq<char>, today: Date)
    requires
        today.valid(),
    ensures
        due_filter(text, today) matches Ok((lo, hi)) ==> exists|first: Date, after: Date|
            first.valid() && after.valid() && first.before(after)
                && lo == #[trigger] day_start(first) && hi == #[trigger] day_start(after),
{
    if let Ok((start, end)) = due_days(text, today) {
        if let Some(after) = end.next() {
            crate::date::lemma_next_is_successor(end, start);
            assert(start.valid() && end.valid());
            assert(start.before(after));
            assert(due_filter(text, today) == Ok::<(Seq<char>, Seq<char>), DueFilterError>((day_start(start), day_start(after))));
        }
    }
}

/// The bounds of a due filter: the earliest due timestamp selected, and the
/// first one past the selection.
pub struct DueBounds {
    pub due_min: String,
    pub due_max: String,
}

pub open spec fn bounds_view(r: Result<DueBounds, DueFilterError>) -> Result<(Seq<char>, Seq<char>), DueFilterError> {
    match r {
        Ok(b) => Ok((b.due_min@, b.due_max@)),
        Err(e) => Err(e),
    }
}

/// The due timestamp at the start of a valid day.
pub fn start_of_day(d: &Date) -> (s: String)
    requires
        d.valid(),
    ensures
        s@ == day_start(*d),
{
    let mut s = d.to_text();
    s.append("T00:00:00.000Z");
    s
}

/// The bounds for the days `start` to `end`; the upper bound is exclusive, the
/// start of the day after `end`.
pub fn window_bounds(start: &Date, end: &Date) -> (r: Result<DueBounds, DueFilterError>)
    requires
        start.valid(),
        end.valid(),
    ensures
        bounds_view(r) == due_window(*start, *end),
{
    match end.succ() {
        None => Err(DueFilterError::NoNextDay),
        Some(after) => {
            proof { crate::date::lemma_next_is_successor(*end, *end); }
            Ok(DueBounds { due_min: start_of_day(start), due_max: start_of_day(&after) })
        },
    }
}

/// The date that a text names in `YYYY-MM-DD` form.
pub fn read_ymd(text: &str) -> (r: Option<Date>)
    ensures
        r == parse_ymd(text@),
        r == chrono_ymd(text@),
        r matches Some(d) ==> d.valid(),
        forall|d: Date| d.valid() && text@ == #[trigger] date_text(d) ==> r == Some(d),
{
    parse_date(text, "%Y-%m-%d")
}

/// The first and last day that a filter text other than `today` selects: a
/// range `START..END`, or a single date.
pub fn explicit_days(text: &str) -> (r: Result<(Date, Date), DueFilterError>)
    ensures
        r == explicit_due_days(text@),
        r == explicit_due_days_by(text@, false),
        r matches Ok((s, e)) ==> s.valid() && e.valid(),
{
    let n = text.unicode_len();
    match find_dots(text, 0) {
        None => {
            proof { lemma_split_without_dots(text@); }
            match read_ymd(text) {
                None => Err(DueFilterError::InvalidDate),
                Some(d) => Ok((d, d)),
            }
        },
        Some(i) => {
            let ghost s = text@;
            proof { lemma_split_at_first(s, i as int); }
            let rest_dots = find_dots(text, i + 2);
            match rest_dots {
                Some(k) => {
                    proof {
                        let t = s.skip(i + 2);
                        assert(dots_at(t, k - i - 2));
                        lemma_first_dots(t, k - i - 2);
                        let first = choose|m: int| dots_at(t, m) && forall|j: int| 0 <= j < m ==> !dots_at(t, j);
                        lemma_split_at_first(t, first);
                        crate::text::lemma_split_nonempty(t.skip(first + 2));
                    }
                    Err(DueFilterError::MalformedRange)
                },
                None => {
                    proof {
                        let t = s.skip(i + 2);
                        assert forall|j: int| !dots_at(t, j) by {
                            if dots_at(t, j) {
                                assert(dots_at(s, j + i + 2));
                            }
                        }
                        lemma_split_without_dots(t);
                    }
                    let first = text.substring_char(0, i);
                    let second = text.substring_char(i + 2, n);
                    assert(first@ == s.take(i as int));
                    assert(second@ == s.skip(i + 2));
                    match read_ymd(first) {
                        None => Err(DueFilterError::InvalidStart),
                        Some(start) => match read_ymd(second) {
                            None => Err(DueFilterError::InvalidEnd),
                            Some(end) => if end.is_before(&start) {
                                Err(DueFilterError::EndBeforeStart)
                            } else {
                                Ok((start, end))
                            },
                        },
                    }
                },
            }
        },
    }
}

proof fn lemma_first_dots(t: Seq<char>, k: int)
    requires
        dots_at(t, k),
    ensures
        exists|m: int| dots_at(t, m) && forall|j: int| 0 <= j < m ==> !dots_at(t, j),
    decreases k,
{
    if exists|j: int| 0 <= j < k && dots_at(t, j) {
        let j = choose|j: int| 0 <= j < k && dots_at(t, j);
        lemma_first_dots(t, j);
    }
}

/// The bounds that a due filter text selects: `today`, a single date
/// `YYYY-MM-DD`, or a range `YYYY-MM-DD..YYYY-MM-DD`. The upper bound is the
/// start of the day after the last day selected, since the service treats it as
/// exclusive.
pub fn parse_due_filter(due_str: &str) -> (r: Result<DueBounds, DueFilterError>)
    ensures
        exists|today: Date| today.valid() && bounds_view(r) == #[trigger] due_filter(due_str@, today),
        due_str@ != "today"@ ==> forall|today: Date| bounds_view(r) == #[trigger] due_filter(due_str@, today),
        due_str@ != "today"@ ==> bounds_view(r) == chrono_due_filter(due_str@),
{
    if same_text(due_str, "today") {
        let today = local_today();
        let r = window_bounds(&today, &today);
        assert(bounds_view(r) == due_filter(due_str@, today));
        r
    } else {
        let r = match explicit_days(due_str) {
            Err(e) => Err(e),
            Ok((start, end)) => window_bounds(&start, &end),
        };
        assert(Date::last().valid());
        assert(bounds_view(r) == due_filter(due_str@, Date::last()));
        r
    }
}

} // verus!
