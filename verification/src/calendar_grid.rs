//! The week-column grid of a calendar heatmap: which days it shows, which
//! datum each day takes its value from, and how a pointer moving over the
//! grid turns into enter / move / leave events.
use vstd::prelude::*;

use crate::calendar_dates::{
    civil_date_is_unique, civil_date_of, civil_from_days, date_key, date_key_from_days,
    day_in_key_range, parse_date, parsed_date, parsed_date_in_range, start_of_week, weekday,
};

verus! {

/// Earliest day among the dates that parse.
pub open spec fn earliest_day(dates: Seq<&str>) -> Option<int>
    decreases dates.len(),
{
    if dates.len() == 0 {
        None
    } else {
        let rest = earliest_day(dates.drop_last());
        match parsed_date(dates.last()@) {
            None => rest,
            Some(d) => match rest {
                None => Some(d),
                Some(r) => Some(if d < r { d } else { r }),
            },
        }
    }
}

/// Latest day among the dates that parse.
pub open spec fn latest_day(dates: Seq<&str>) -> Option<int>
    decreases dates.len(),
{
    if dates.len() == 0 {
        None
    } else {
        let rest = latest_day(dates.drop_last());
        match parsed_date(dates.last()@) {
            None => rest,
            Some(d) => match rest {
                None => Some(d),
                Some(r) => Some(if d > r { d } else { r }),
            },
        }
    }
}

/// Index of the last date that parses to `day`: among data for the same
/// day, the one given last is shown.
pub open spec fn source_index(dates: Seq<&str>, day: int) -> Option<int>
    decreases dates.len(),
{
    if dates.len() == 0 {
        None
    } else if parsed_date(dates.last()@) == Some(day) {
        Some(dates.len() - 1)
    } else {
        source_index(dates.drop_last(), day)
    }
}

/// First day of the week holding `day`, weeks starting on weekday `week_starts_on`.
pub open spec fn week_start_of(day: int, week_starts_on: int) -> int {
    day - (weekday(day) - week_starts_on) % 7
}

/// First day shown: the start of the week of the earliest date.
pub open spec fn grid_start(dates: Seq<&str>, week_starts_on: u8) -> int {
    week_start_of(earliest_day(dates).unwrap(), week_starts_on as int)
}

/// Number of week columns: from the week of the earliest date through the
/// week of the latest one.
pub open spec fn grid_week_count(dates: Seq<&str>, week_starts_on: u8) -> int {
    (week_start_of(latest_day(dates).unwrap(), week_starts_on as int) + 6 - grid_start(
        dates,
        week_starts_on,
    ) + 1) / 7
}

/// First day of week column `k`.
pub open spec fn column_start(dates: Seq<&str>, week_starts_on: u8, k: int) -> int {
    grid_start(dates, week_starts_on) + 7 * k
}

/// The grid's cell count fits in memory indices.
pub open spec fn grid_fits(dates: Seq<&str>, week_starts_on: u8) -> bool {
    earliest_day(dates) is Some ==> grid_week_count(dates, week_starts_on) * 7 <= usize::MAX
}

pub open spec fn index_view(i: Option<usize>) -> Option<int> {
    match i {
        Some(j) => Some(j as int),
        None => None,
    }
}

/// The date text a cell shows: the datum's own date, else the day's key.
pub open spec fn cell_date(dates: Seq<&str>, day: int) -> Seq<char> {
    match source_index(dates, day) {
        Some(i) => dates[i]@,
        None => date_key(civil_date_of(day)),
    }
}

/// One day of the grid.
#[derive(Debug, Clone, PartialEq, Eq)]
pub struct CalendarGridCell {
    /// Day number (days since 1970-01-01).
    pub day: i64,
    /// Index of the datum shown in this cell, if any.
    pub source: Option<usize>,
    /// The datum's date as given, or the `YYYY-MM-DD` key of an empty day.
    pub date: String,
    /// Key of the first day of the cell's week.
    pub week_start: String,
}

/// Week-column grid: `cells[7 * week + offset]` is day `start + 7 * week + offset`.
#[derive(Debug, Clone, PartialEq, Eq)]
pub struct CalendarGrid {
    pub first: i64,
    pub last: i64,
    pub start: i64,
    pub week_count: usize,
    pub cells: Vec<CalendarGridCell>,
}

pub open spec fn cell_matches(cell: CalendarGridCell, dates: Seq<&str>, day: int, week_start: int) -> bool {
    &&& cell.day == day
    &&& index_view(cell.source) == source_index(dates, day)
    &&& cell.date@ == cell_date(dates, day)
    &&& cell.week_start@ == date_key(civil_date_of(week_start))
}

pub open spec fn grid_matches(grid: CalendarGrid, dates: Seq<&str>, week_starts_on: u8) -> bool {
    &&& Some(grid.first as int) == earliest_day(dates)
    &&& Some(grid.last as int) == latest_day(dates)
    &&& grid.start == grid_start(dates, week_starts_on)
    &&& grid.week_count == grid_week_count(dates, week_starts_on)
    &&& grid.cells@.len() == grid.week_count * 7
    &&& forall|k: int|
        0 <= k < grid.cells@.len() ==> cell_matches(
            #[trigger] grid.cells@[k],
            dates,
            grid.start + k,
            grid.start + 7 * (k / 7),
        )
}

proof fn lemma_source_step(dates: Seq<&str>, j: int, day: int)
    requires
        0 <= j < dates.len(),
    ensures
        source_index(dates.take(j + 1), day) == (if parsed_date(dates[j]@) == Some(day) {
            Some(j)
        } else {
            source_index(dates.take(j), day)
        }),
{
    assert(dates.take(j + 1).drop_last() =~= dates.take(j));
}

/// Whether the grid over `dates` has an addressable cell count, the
/// condition [`build_calendar_grid`] asks of its caller.
pub fn calendar_grid_fits(dates: &[&str], week_starts_on: u8) -> (r: bool)
    ensures
        r == grid_fits(dates@, week_starts_on),
{
    let n = dates.len();
    let mut first: Option<i64> = None;
    let mut last: Option<i64> = None;
    let mut i: usize = 0;
    while i < n
        invariant
            n == dates@.len(),
            i <= n,
            index_i64(first) == earliest_day(dates@.take(i as int)),
            index_i64(last) == latest_day(dates@.take(i as int)),
            first is Some <==> last is Some,
            first matches Some(f) ==> day_in_key_range(f as int) && (last matches Some(l) && f
                <= l),
            last matches Some(l) ==> day_in_key_range(l as int),
        decreases n - i,
    {
        let d = parse_date(dates[i]);
        proof {
            parsed_date_in_range(dates@[i as int]@);
            assert(dates@.take(i + 1).drop_last() =~= dates@.take(i as int));
            assert(dates@.take(i + 1).last() == dates@[i as int]);
        }
        match d {
            Some(day) => {
                first = match first {
                    Some(f) => Some(if day < f { day } else { f }),
                    None => Some(day),
                };
                last = match last {
                    Some(l) => Some(if day > l { day } else { l }),
                    None => Some(day),
                };
            },
            None => {},
        }
        i = i + 1;
    }
    assert(dates@.take(n as int) =~= dates@);
    let (first, last) = match (first, last) {
        (Some(f), Some(l)) => (f, l),
        _ => {
            return true;
        },
    };
    let start = start_of_week(first, week_starts_on);
    let last_start = start_of_week(last, week_starts_on);
    let weeks: i64 = (last_start + 6 - start + 1) / 7;
    assert(weeks >= 0);
    let cells: u128 = weeks as u128 * 7;
    cells <= usize::MAX as u128
}

/// The grid of days a heatmap over `dates` shows (`None` when no date
/// parses): whole weeks from the week of the earliest date through the week
/// of the latest, each day taking the last datum dated that day.
pub fn build_calendar_grid(dates: &[&str], week_starts_on: u8) -> (r: Option<CalendarGrid>)
    requires
        grid_fits(dates@, week_starts_on),
    ensures
        r is None <==> earliest_day(dates@) is None,
        r matches Some(grid) ==> grid_matches(grid, dates@, week_starts_on),
{
    let n = dates.len();
    let mut parsed: Vec<Option<i64>> = Vec::new();
    let mut first: Option<i64> = None;
    let mut last: Option<i64> = None;
    let mut i: usize = 0;
    while i < n
        invariant
            n == dates@.len(),
            i <= n,
            parsed@.len() == i,
            forall|j: int| 0 <= j < i ==> #[trigger] index_i64(parsed@[j]) == parsed_date(dates@[j]@),
            index_i64(first) == earliest_day(dates@.take(i as int)),
            index_i64(last) == latest_day(dates@.take(i as int)),
            first is Some <==> last is Some,
            first matches Some(f) ==> day_in_key_range(f as int) && (last matches Some(l) && f
                <= l),
            last matches Some(l) ==> day_in_key_range(l as int),
            forall|j: int|
                0 <= j < i ==> (#[trigger] parsed@[j] matches Some(d) ==> (first matches Some(f)
                    && f <= d) && (last matches Some(l) && d <= l)),
        decreases n - i,
    {
        let d = parse_date(dates[i]);
        proof {
            parsed_date_in_range(dates@[i as int]@);
            assert(dates@.take(i + 1).drop_last() =~= dates@.take(i as int));
            assert(dates@.take(i + 1).last() == dates@[i as int]);
        }
        match d {
            Some(day) => {
                first = match first {
                    Some(f) => Some(if day < f { day } else { f }),
                    None => Some(day),
                };
                last = match last {
                    Some(l) => Some(if day > l { day } else { l }),
                    None => Some(day),
                };
            },
            None => {},
        }
        parsed.push(d);
        i = i + 1;
    }
    assert(dates@.take(n as int) =~= dates@);
    let (first, last) = match (first, last) {
        (Some(f), Some(l)) => (f, l),
        _ => {
            return None;
        },
    };
    let start = start_of_week(first, week_starts_on);
    let last_start = start_of_week(last, week_starts_on);
    assert(last_start >= start && (last_start - start) % 7 == 0) by (nonlinear_arith)
        requires
            start <= first < start + 7,
            last_start <= last < last_start + 7,
            first <= last,
            weekday(start as int) == week_starts_on % 7,
            weekday(last_start as int) == week_starts_on % 7,
    ;
    let weeks: i64 = (last_start + 6 - start + 1) / 7;
    assert(weeks * 7 <= usize::MAX);
    let week_count = weeks as usize;
    let total: usize = week_count * 7;
    assert(last < start + total) by (nonlinear_arith)
        requires
            weeks == (last_start + 6 - start + 1) / 7,
            (last_start - start) % 7 == 0,
            last < last_start + 7,
            total == weeks * 7,
    ;
    // For each day of the grid, the last datum dated that day.
    let mut index: Vec<Option<usize>> = Vec::new();
    let mut k: usize = 0;
    while k < total
        invariant
            k <= total,
            index@.len() == k,
            forall|m: int| 0 <= m < k ==> #[trigger] index@[m] is None,
        decreases total - k,
    {
        index.push(None);
        k = k + 1;
    }
    assert forall|m: int| 0 <= m < total implies #[trigger] index_view(index@[m]) == source_index(
        dates@.take(0),
        start + m,
    ) by {}
    let mut j: usize = 0;
    while j < n
        invariant
            n == dates@.len(),
            j <= n,
            parsed@.len() == n,
            index@.len() == total,
            start <= first <= last < start + total,
            first < start + 7,
            day_in_key_range(first as int),
            day_in_key_range(last as int),
            forall|m: int| 0 <= m < n ==> #[trigger] index_i64(parsed@[m]) == parsed_date(dates@[m]@),
            forall|m: int|
                0 <= m < n ==> (#[trigger] parsed@[m] matches Some(d) ==> first <= d <= last),
            forall|m: int|
                0 <= m < total ==> #[trigger] index_view(index@[m]) == source_index(
                    dates@.take(j as int),
                    start + m,
                ),
        decreases n - j,
    {
        assert(index_i64(parsed@[j as int]) == parsed_date(dates@[j as int]@));
        let entry = parsed[j];
        proof {
            assert forall|m: int| 0 <= m < total implies #[trigger] source_index(
                dates@.take(j + 1),
                start + m,
            ) == (if parsed_date(dates@[j as int]@) == Some(start + m) {
                Some(j as int)
            } else {
                source_index(dates@.take(j as int), start + m)
            }) by {
                lemma_source_step(dates@, j as int, start + m);
            }
        }
        match entry {
            Some(d) => {
                let offset = (d - start) as usize;
                index.set(offset, Some(j));
            },
            None => {},
        }
        j = j + 1;
    }
    assert(dates@.take(n as int) =~= dates@);
    let mut cells: Vec<CalendarGridCell> = Vec::new();
    let mut k: usize = 0;
    while k < total
        invariant
            n == dates@.len(),
            k <= total,
            total == week_count * 7,
            index@.len() == total,
            start + total <= 1_099_511_627_776 + 7,
            start >= -1_099_511_627_776 - 7,
            cells@.len() == k,
            forall|m: int|
                0 <= m < total ==> #[trigger] index_view(index@[m]) == source_index(dates@, start + m),
            forall|m: int|
                0 <= m < k ==> cell_matches(
                    #[trigger] cells@[m],
                    dates@,
                    start + m,
                    start + 7 * (m / 7),
                ),
        decreases total - k,
    {
        let day = start + k as i64;
        let week_first = start + ((k / 7) * 7) as i64;
        let source = index[k];
        assert(index_view(source) == source_index(dates@, day as int));
        let date = match source {
            Some(j) => {
                proof {
                    lemma_source_in_bounds(dates@, day as int);
                }
                dates[j].to_owned()
            },
            None => date_key_from_days(day),
        };
        let week_start = date_key_from_days(week_first);
        cells.push(CalendarGridCell { day, source, date, week_start });
        k = k + 1;
    }
    Some(CalendarGrid { first, last, start, week_count, cells })
}

pub open spec fn index_i64(d: Option<i64>) -> Option<int> {
    match d {
        Some(x) => Some(x as int),
        None => None,
    }
}

proof fn lemma_source_in_bounds(dates: Seq<&str>, day: int)
    ensures
        source_index(dates, day) matches Some(i) ==> 0 <= i < dates.len() && parsed_date(dates[i]@)
            == Some(day),
    decreases dates.len(),
{
    if dates.len() > 0 && parsed_date(dates.last()@) != Some(day) {
        lemma_source_in_bounds(dates.drop_last(), day);
    }
}

proof fn lemma_week_start(day: int, week_starts_on: int)
    requires
        week_starts_on >= 0,
    ensures
        week_start_of(day, week_starts_on) <= day < week_start_of(day, week_starts_on) + 7,
        weekday(week_start_of(day, week_starts_on)) == week_starts_on % 7,
{
    let back = (weekday(day) - week_starts_on) % 7;
    assert(weekday(day - back) == week_starts_on % 7) by (nonlinear_arith)
        requires
            back == ((day + 4) % 7 - week_starts_on) % 7,
            week_starts_on >= 0,
    ;
}

/// A date that parses lies between the earliest and the latest date, and
/// some datum at or after it is dated that same day.
proof fn lemma_date_in_extremes(dates: Seq<&str>, i: int)
    requires
        0 <= i < dates.len(),
        parsed_date(dates[i]@) is Some,
    ensures
        earliest_day(dates) matches Some(f) && f <= parsed_date(dates[i]@)->0,
        latest_day(dates) matches Some(l) && parsed_date(dates[i]@)->0 <= l,
        source_index(dates, parsed_date(dates[i]@)->0) matches Some(j) && i <= j < dates.len()
            && parsed_date(dates[j]@) == parsed_date(dates[i]@),
    decreases dates.len(),
{
    let d = parsed_date(dates[i]@)->0;
    if i < dates.len() - 1 {
        assert(dates.drop_last()[i] == dates[i]);
        lemma_date_in_extremes(dates.drop_last(), i);
    }
}

/// Every date that parses gets a cell: it lies within the grid's whole
/// weeks, and its cell shows the last datum dated that day. Every week
/// column starts on the configured weekday.
pub proof fn grid_covers_every_date(dates: Seq<&str>, week_starts_on: u8, i: int)
    requires
        0 <= i < dates.len(),
        parsed_date(dates[i]@) is Some,
    ensures
        ({
            let d = parsed_date(dates[i]@)->0;
            let start = grid_start(dates, week_starts_on);
            &&& start <= d < start + 7 * grid_week_count(dates, week_starts_on)
            &&& source_index(dates, d) matches Some(j) && i <= j < dates.len() && parsed_date(
                dates[j]@,
            ) == Some(d)
        }),
        forall|k: int|
            0 <= k < grid_week_count(dates, week_starts_on) ==> weekday(
                #[trigger] column_start(dates, week_starts_on, k),
            ) == week_starts_on % 7,
{
    lemma_date_in_extremes(dates, i);
    let first = earliest_day(dates)->0;
    let last = latest_day(dates)->0;
    let w = week_starts_on as int;
    lemma_week_start(first, w);
    lemma_week_start(last, w);
    let start = week_start_of(first, w);
    let last_start = week_start_of(last, w);
    assert(last_start >= start && (last_start - start) % 7 == 0) by (nonlinear_arith)
        requires
            start <= first < start + 7,
            last_start <= last < last_start + 7,
            first <= last,
            weekday(start) == w % 7,
            weekday(last_start) == w % 7,
    ;
    let count = grid_week_count(dates, week_starts_on);
    assert(7 * count == last_start - start + 7) by (nonlinear_arith)
        requires
            count == (last_start + 6 - start + 1) / 7,
            (last_start - start) % 7 == 0,
            last_start >= start,
    ;
    assert forall|k: int| 0 <= k < count implies weekday(
        #[trigger] column_start(dates, week_starts_on, k),
    ) == w % 7 by {
        assert(weekday(start + 7 * k) == weekday(start)) by (nonlinear_arith);
    }
}

/// What the pointer did to the highlighted cell.
#[derive(Debug, Clone, Copy, PartialEq, Eq, Structural)]
pub enum CalendarPointerEvent {
    /// The pointer entered cell `i` (from another cell or from outside).
    CellEnter(usize),
    /// The pointer moved within cell `i`.
    CellMove(usize),
    /// The pointer left the grid.
    CellLeave,
}

pub open spec fn pointer_event_of(active: Option<usize>, next: Option<usize>, cell_count: usize) -> Option<
    CalendarPointerEvent,
> {
    match next {
        Some(n) => if n >= cell_count {
            None
        } else if active == Some(n) {
            Some(CalendarPointerEvent::CellMove(n))
        } else {
            Some(CalendarPointerEvent::CellEnter(n))
        },
        None => if active is Some {
            Some(CalendarPointerEvent::CellLeave)
        } else {
            None
        },
    }
}

/// Moves the highlight of a grid of `cell_count` cells to `next` (the cell
/// under the pointer, `None` when it is outside any cell) and reports the
/// event: move within the same cell, enter a cell, leave the grid, or nothing.
pub fn set_pointer_cell(active: &mut Option<usize>, next: Option<usize>, cell_count: usize) -> (event: Option<
    CalendarPointerEvent,
>)
    ensures
        *final(active) == next,
        event == pointer_event_of(*old(active), next, cell_count),
{
    let event = match (*active, next) {
        (Some(previous), Some(next_index)) if previous == next_index => if next_index < cell_count {
            Some(CalendarPointerEvent::CellMove(next_index))
        } else {
            None
        },
        (_, Some(next_index)) => if next_index < cell_count {
            Some(CalendarPointerEvent::CellEnter(next_index))
        } else {
            None
        },
        (Some(_), None) => Some(CalendarPointerEvent::CellLeave),
        (None, None) => None,
    };
    *active = next;
    event
}

pub open spec fn max_level_of(levels: Seq<u8>) -> u8
    decreases levels.len(),
{
    if levels.len() == 0 {
        0
    } else {
        let rest = max_level_of(levels.drop_last());
        if levels.last() > rest {
            levels.last()
        } else {
            rest
        }
    }
}

/// Highest level among the cells, at least 1; 4 when there are no cells.
pub fn max_cell_level(levels: &[u8]) -> (r: u8)
    ensures
        r == (if levels@.len() == 0 {
            4
        } else if max_level_of(levels@) < 1 {
            1
        } else {
            max_level_of(levels@)
        }),
{
    if levels.len() == 0 {
        return 4;
    }
    let mut max: u8 = 0;
    let mut i: usize = 0;
    while i < levels.len()
        invariant
            i <= levels@.len(),
            max == max_level_of(levels@.take(i as int)),
        decreases levels.len() - i,
    {
        assert(levels@.take(i + 1).drop_last() =~= levels@.take(i as int));
        if levels[i] > max {
            max = levels[i];
        }
        i = i + 1;
    }
    assert(levels@.take(levels.len() as int) =~= levels@);
    if max < 1 {
        1
    } else {
        max
    }
}

/// A month label's anchor: the week column it sits over, that week's key,
/// and the month it names.
#[derive(Debug, Clone, PartialEq, Eq)]
pub struct CalendarMonthMark {
    pub week: usize,
    pub key: String,
    pub year: i32,
    pub month: u8,
}

/// The month a cell opens, if its date lies within `[first, last]` and in a
/// month other than `last_month`.
pub open spec fn month_of_cell(cell: CalendarGridCell, first: int, last: int, last_month: Option<u8>) -> Option<
    (i32, u8),
> {
    match parsed_date(cell.date@) {
        Some(d) => if first <= d <= last && Some(civil_date_of(d).1) != last_month {
            Some((civil_date_of(d).0, civil_date_of(d).1))
        } else {
            None
        },
        None => None,
    }
}

/// The month the first such cell of `chunk` opens.
pub open spec fn week_month(chunk: Seq<CalendarGridCell>, first: int, last: int, last_month: Option<u8>) -> Option<
    (i32, u8),
>
    decreases chunk.len(),
{
    if chunk.len() == 0 {
        None
    } else {
        match month_of_cell(chunk[0], first, last, last_month) {
            Some(m) => Some(m),
            None => week_month(chunk.drop_first(), first, last, last_month),
        }
    }
}

/// The cells of week column `w` (the last column may be short).
pub open spec fn week_cells(cells: Seq<CalendarGridCell>, w: int) -> Seq<CalendarGridCell> {
    cells.subrange(7 * w, if 7 * w + 7 <= cells.len() { 7 * w + 7 } else { cells.len() as int })
}

/// Month marks of the first `weeks` columns, as (week, key, year, month),
/// and the month last marked: a column is marked when one of its in-range
/// days lies in a month other than the one marked before.
pub open spec fn month_marks(cells: Seq<CalendarGridCell>, first: int, last: int, weeks: nat) -> (
    Seq<(int, Seq<char>, i32, u8)>,
    Option<u8>,
)
    decreases weeks,
{
    if weeks == 0 {
        (Seq::empty(), None)
    } else {
        let w = weeks - 1;
        let (marks, last_month) = month_marks(cells, first, last, w as nat);
        let chunk = week_cells(cells, w);
        match week_month(chunk, first, last, last_month) {
            Some((year, month)) => (marks.push((w, chunk[0].week_start@, year, month)), Some(month)),
            None => (marks, last_month),
        }
    }
}

/// A cell whose date lies within `[first, last]` and falls in `month` of `year`.
pub open spec fn cell_in_month(cell: CalendarGridCell, first: int, last: int, year: i32, month: u8) -> bool {
    match parsed_date(cell.date@) {
        Some(d) => first <= d <= last && civil_date_of(d).0 == year && civil_date_of(d).1 == month,
        None => false,
    }
}

proof fn lemma_week_month_found(chunk: Seq<CalendarGridCell>, first: int, last: int, last_month: Option<u8>)
    ensures
        week_month(chunk, first, last, last_month) matches Some((year, month)) ==> exists|i: int|
            0 <= i < chunk.len() && cell_in_month(#[trigger] chunk[i], first, last, year, month),
    decreases chunk.len(),
{
    if chunk.len() > 0 {
        lemma_week_month_found(chunk.drop_first(), first, last, last_month);
        match week_month(chunk, first, last, last_month) {
            Some((year, month)) => {
                if month_of_cell(chunk[0], first, last, last_month) is Some {
                    assert(cell_in_month(chunk[0], first, last, year, month));
                } else {
                    let i = choose|i: int|
                        0 <= i < chunk.drop_first().len() && cell_in_month(
                            #[trigger] chunk.drop_first()[i],
                            first,
                            last,
                            year,
                            month,
                        );
                    assert(chunk[i + 1] == chunk.drop_first()[i]);
                }
            },
            None => {},
        }
    }
}

/// Each month mark names its own week column: it sits over a column of the
/// grid, carries that column's week key, and the month it names is the
/// month of one of that column's days within `[first, last]`; the marked
/// columns run left to right, each at most once.
pub proof fn month_marks_name_their_columns(
    cells: Seq<CalendarGridCell>,
    first: int,
    last: int,
    weeks: nat,
)
    requires
        weeks <= (cells.len() + 6) / 7,
    ensures
        ({
            let marks = month_marks(cells, first, last, weeks).0;
            &&& forall|k: int|
                0 <= k < marks.len() ==> {
                    let week = (#[trigger] marks[k]).0;
                    &&& 0 <= week < weeks
                    &&& 7 * week < cells.len()
                    &&& marks[k].1 == cells[7 * week].week_start@
                    &&& exists|i: int|
                        7 * week <= i < cells.len() && i < 7 * week + 7 && cell_in_month(
                            #[trigger] cells[i],
                            first,
                            last,
                            marks[k].2,
                            marks[k].3,
                        )
                }
            &&& forall|k: int, j: int| 0 <= k < j < marks.len() ==> marks[k].0 < marks[j].0
        }),
    decreases weeks,
{
    if weeks > 0 {
        let w = weeks - 1;
        month_marks_name_their_columns(cells, first, last, w as nat);
        let (marks, last_month) = month_marks(cells, first, last, w as nat);
        let chunk = week_cells(cells, w);
        lemma_week_month_found(chunk, first, last, last_month);
        match week_month(chunk, first, last, last_month) {
            Some((year, month)) => {
                let i = choose|i: int|
                    0 <= i < chunk.len() && cell_in_month(#[trigger] chunk[i], first, last, year, month);
                assert(chunk[i] == cells[7 * w + i]);
                assert(chunk[0] == cells[7 * w]);
                let all = marks.push((w as int, chunk[0].week_start@, year, month));
                assert(all[marks.len() as int].0 == w);
                assert(cell_in_month(cells[7 * w + i], first, last, all[marks.len() as int].2, all[marks.len() as int].3));
                assert forall|k: int| 0 <= k < all.len() implies {
                    let week = (#[trigger] all[k]).0;
                    &&& 0 <= week < weeks
                    &&& 7 * week < cells.len()
                    &&& all[k].1 == cells[7 * week].week_start@
                    &&& exists|i: int|
                        7 * week <= i < cells.len() && i < 7 * week + 7 && cell_in_month(
                            #[trigger] cells[i],
                            first,
                            last,
                            all[k].2,
                            all[k].3,
                        )
                } by {
                    if k < marks.len() {
                        assert(all[k] == marks[k]);
                    } else {
                        assert(cell_in_month(cells[7 * w + i], first, last, all[k].2, all[k].3));
                    }
                }
                assert forall|k: int, j: int| 0 <= k < j < all.len() implies all[k].0 < all[j].0 by {
                    assert(all[k] == marks[k]);
                    if j < marks.len() {
                        assert(all[j] == marks[j]);
                    }
                }
            },
            None => {},
        }
    }
}

pub open spec fn mark_view(mark: CalendarMonthMark) -> (int, Seq<char>, i32, u8) {
    (mark.week as int, mark.key@, mark.year, mark.month)
}

/// The month a cell opens, computed.
fn cell_month(cell: &CalendarGridCell, first: i64, last: i64, last_month: Option<u8>) -> (r: Option<(i32, u8)>)
    ensures
        r == month_of_cell(*cell, first as int, last as int, last_month),
{
    match parse_date(cell.date.as_str()) {
        Some(d) => {
            proof {
                parsed_date_in_range(cell.date@);
            }
            if first <= d && d <= last {
                let date = civil_from_days(d);
                proof {
                    civil_date_is_unique(date, d as int);
                }
                if Some(date.1) != last_month {
                    Some((date.0, date.1))
                } else {
                    None
                }
            } else {
                None
            }
        },
        None => None,
    }
}

/// Where month labels go over the week columns of `cells`: a column gets
/// one when a day of it within `[first, last]` starts a month other than
/// the previously labelled one.
pub fn calendar_month_marks(cells: &[CalendarGridCell], first: i64, last: i64) -> (marks: Vec<CalendarMonthMark>)
    ensures
        marks@.map_values(|m: CalendarMonthMark| mark_view(m)) == month_marks(
            cells@,
            first as int,
            last as int,
            ((cells@.len() + 6) / 7) as nat,
        ).0,
{
    let mut marks: Vec<CalendarMonthMark> = Vec::new();
    let mut last_month: Option<u8> = None;
    let weeks = cells.len() / 7 + if cells.len() % 7 == 0 { 0 } else { 1 };
    assert(weeks == (cells@.len() + 6) / 7);
    let mut w: usize = 0;
    while w < weeks
        invariant
            weeks == (cells@.len() + 6) / 7,
            w <= weeks,
            marks@.map_values(|m: CalendarMonthMark| mark_view(m)) == month_marks(
                cells@,
                first as int,
                last as int,
                w as nat,
            ).0,
            last_month == month_marks(cells@, first as int, last as int, w as nat).1,
        decreases weeks - w,
    {
        let len = cells.len();
        assert(7 * w < len) by (nonlinear_arith)
            requires
                w < weeks,
                weeks == (len + 6) / 7,
        ;
        let lo: usize = 7 * w;
        let hi = if cells.len() - lo >= 7 { lo + 7 } else { cells.len() };
        let ghost chunk = week_cells(cells@, w as int);
        let mut c = lo;
        let mut found: Option<(i32, u8)> = None;
        assert(cells@.subrange(lo as int, hi as int) == chunk);
        while c < hi && found.is_none()
            invariant
                lo <= c <= hi <= cells@.len(),
                chunk == cells@.subrange(lo as int, hi as int),
                found is None ==> week_month(chunk, first as int, last as int, last_month)
                    == week_month(cells@.subrange(c as int, hi as int), first as int, last as int, last_month),
                found is Some ==> found == week_month(chunk, first as int, last as int, last_month),
            decreases hi - c,
        {
            assert(cells@.subrange(c as int, hi as int).drop_first() =~= cells@.subrange(
                c + 1,
                hi as int,
            ));
            assert(cells@.subrange(c as int, hi as int)[0] == cells@[c as int]);
            found = cell_month(&cells[c], first, last, last_month);
            c = c + 1;
        }
        assert(cells@.subrange(hi as int, hi as int) =~= Seq::<CalendarGridCell>::empty());
        assert(found == week_month(chunk, first as int, last as int, last_month));
        match found {
            Some((year, month)) => {
                assert(chunk[0] == cells@[lo as int]);
                marks.push(
                    CalendarMonthMark { week: w, key: cells[lo].week_start.clone(), year, month },
                );
                last_month = Some(month);
                proof {
                    let prev = month_marks(cells@, first as int, last as int, w as nat).0;
                    assert(marks@.map_values(|m: CalendarMonthMark| mark_view(m)) =~= prev.push(
                        (w as int, chunk[0].week_start@, year, month),
                    ));
                }
            },
            None => {},
        }
        w = w + 1;
    }
    marks
}

/// What assistive technology announces for a heatmap: the title of the
/// highlighted cell, else the heatmap's own non-empty label, else
/// `Calendar heatmap`.
pub fn resolved_heatmap_label<'a>(active_title: Option<&'a str>, label: Option<&'a str>) -> (r: &'a str)
    ensures
        r@ == (match active_title {
            Some(title) => title@,
            None => match label {
                Some(l) => if l@.len() > 0 {
                    l@
                } else {
                    "Calendar heatmap"@
                },
                None => "Calendar heatmap"@,
            },
        }),
{
    if let Some(title) = active_title {
        return title;
    }
    match label {
        Some(l) => if !l.is_empty() {
            l
        } else {
            "Calendar heatmap"
        },
        None => "Calendar heatmap",
    }
}

/// The positions of the highlighted entries, in increasing order.
pub open spec fn highlighted_positions(actives: Seq<Option<usize>>) -> Seq<int>
    decreases actives.len(),
{
    if actives.len() == 0 {
        Seq::empty()
    } else {
        let rest = highlighted_positions(actives.drop_last());
        if actives.last() is Some {
            rest.push(actives.len() - 1)
        } else {
            rest
        }
    }
}

/// Clears the highlight of every heatmap of a document, given their
/// highlighted cells in document order. Each highlighted one leaves its cell
/// and reports `CellLeave`; the result lists those heatmaps' positions in
/// document order, so the document changed exactly when it is non-empty.
pub fn clear_calendar_heatmap_hover(actives: &mut Vec<Option<usize>>) -> (left: Vec<(
    usize,
    CalendarPointerEvent,
)>)
    ensures
        final(actives)@.len() == old(actives)@.len(),
        forall|i: int| 0 <= i < final(actives)@.len() ==> #[trigger] final(actives)@[i] is None,
        left@.len() == highlighted_positions(old(actives)@).len(),
        forall|k: int| 0 <= k < left@.len() ==> (#[trigger] left@[k]).0 == highlighted_positions(
            old(actives)@,
        )[k] && left@[k].1 == CalendarPointerEvent::CellLeave,
{
    let mut left: Vec<(usize, CalendarPointerEvent)> = Vec::new();
    let mut i: usize = 0;
    while i < actives.len()
        invariant
            i <= actives@.len(),
            actives@.len() == old(actives)@.len(),
            forall|j: int| 0 <= j < i ==> #[trigger] actives@[j] is None,
            forall|j: int| i <= j < actives@.len() ==> #[trigger] actives@[j] == old(actives)@[j],
            left@.len() == highlighted_positions(old(actives)@.take(i as int)).len(),
            forall|k: int| 0 <= k < left@.len() ==> (#[trigger] left@[k]).0 == highlighted_positions(
                old(actives)@.take(i as int),
            )[k] && left@[k].1 == CalendarPointerEvent::CellLeave,
        decreases actives.len() - i,
    {
        let ghost before = old(actives)@.take(i as int);
        let ghost after = old(actives)@.take(i + 1);
        assert(after.drop_last() =~= before);
        assert(after.last() == old(actives)@[i as int]);
        let mut active = actives[i];
        let event = set_pointer_cell(&mut active, None, 0);
        match event {
            Some(e) => {
                left.push((i, e));
            },
            None => {},
        }
        actives.set(i, active);
        i = i + 1;
    }
    assert(old(actives)@.take(actives@.len() as int) =~= old(actives)@);
    left
}

} // verus!
