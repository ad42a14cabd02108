//! The calendar grid: one cell for each day of a year, in columns of one week
//! each, from Monday at the top to Sunday at the bottom.
//!
//! The grid always has 53 columns. A year needs a 54th only when it is leap
//! and begins on a Sunday; the grid of such a year ends with the 30th of
//! December, and its 31st has no cell.

use crate::calendar::{
    days_in_year, lemma_ordinal_bounds, weekday_from_monday, weekday_index, Date, MAX_YEAR,
    MIN_YEAR,
};
use crate::habit::Day;
use crate::utils::nth_day_of_year;
use vstd::prelude::*;

verus! {

/// The number of rows of the grid: the days of a week.
pub const GRID_ROWS: usize = 7;

/// The number of columns of the grid: the weeks that a year touches.
pub const GRID_COLUMNS: usize = 53;

/// The number of cells of the grid.
pub const GRID_CELLS: usize = GRID_ROWS * GRID_COLUMNS;

/// What a cell of the grid says of its day.
#[derive(Debug, Clone, Copy, PartialEq, Eq, Structural)]
pub enum DayCell {
    /// No day of the year: the cell pads the first or the last week.
    NotInYear,
    /// A day after today.
    ToCome,
    /// A day on which the habit is not due.
    ShouldNotHabit,
    /// A day on which the habit is due, and whether a log exists for it.
    ShouldHabit(bool),
}

/// The number of cells before the cell of the first of January: the days
/// from Monday to the weekday of that day.
pub open spec fn leading_padding(year: int) -> int {
    weekday_index(year, 1)
}

/// Whether a log is of day `ordinal` of `year`.
pub open spec fn is_log_of(log: Date, year: int, ordinal: int) -> bool {
    log.year == year && log.ordinal() == ordinal
}

/// Whether some log is of day `ordinal` of `year`.
pub open spec fn logged_on(logs: Seq<Date>, year: int, ordinal: int) -> bool {
    exists|j: int| 0 <= j < logs.len() && is_log_of(#[trigger] logs[j], year, ordinal)
}

/// Among dates of the calendar, a day of a year is logged where the list of
/// logs holds its date.
pub proof fn lemma_logged_on_date(logs: Seq<Date>, date: Date)
    requires
        date.valid(),
        forall|j: int| 0 <= j < logs.len() ==> (#[trigger] logs[j]).valid(),
    ensures
        logged_on(logs, date.year as int, date.ordinal()) <==> logs.contains(date),
{
    if logged_on(logs, date.year as int, date.ordinal()) {
        let j = choose|j: int|
            0 <= j < logs.len() && is_log_of(#[trigger] logs[j], date.year as int, date.ordinal());
        crate::calendar::lemma_ordinal_tells_date(logs[j], date);
    }
    if logs.contains(date) {
        let j = choose|j: int| 0 <= j < logs.len() && logs[j] == date;
        assert(is_log_of(logs[j], date.year as int, date.ordinal()));
    }
}

/// Whether day `ordinal` of `year` lies after `today`, which it can only in
/// the year of today.
pub open spec fn is_to_come(year: int, today: Date, ordinal: int) -> bool {
    year == today.year && ordinal > today.ordinal()
}

/// What the cell of day `ordinal` of `year` says.
pub open spec fn classify_day(
    year: int,
    today: Date,
    schedule: Seq<Day>,
    logs: Seq<Date>,
    ordinal: int,
) -> DayCell {
    if is_to_come(year, today, ordinal) {
        DayCell::ToCome
    } else if schedule.contains(Day::at(weekday_index(year, ordinal))) {
        DayCell::ShouldHabit(logged_on(logs, year, ordinal))
    } else {
        DayCell::ShouldNotHabit
    }
}

/// What cell `index` of the grid of `year` says.
pub open spec fn classify_cell(
    year: int,
    today: Date,
    schedule: Seq<Day>,
    logs: Seq<Date>,
    index: int,
) -> DayCell {
    let ordinal = index - leading_padding(year) + 1;
    if 1 <= ordinal <= days_in_year(year) {
        classify_day(year, today, schedule, logs, ordinal)
    } else {
        DayCell::NotInYear
    }
}

/// The index of the cell of today, where the grid is of today's year.
pub open spec fn today_cell(year: int, today: Date) -> Option<usize> {
    if year == today.year {
        Some((today.ordinal() - 1 + leading_padding(year)) as usize)
    } else {
        None
    }
}

/// The index of the cell of day `ordinal` of `year`.
pub open spec fn cell_of_day(year: int, ordinal: int) -> int {
    leading_padding(year) + ordinal - 1
}

/// Whether the 53 columns hold every day of `year`.
pub open spec fn year_fits(year: int) -> bool {
    leading_padding(year) + days_in_year(year) <= GRID_CELLS
}

/// The weekday of a day of the year is the row of its cell.
pub proof fn lemma_row_is_weekday(year: int, ordinal: int)
    requires
        ordinal >= 1,
    ensures
        0 <= leading_padding(year) < 7,
        weekday_index(year, ordinal) == (leading_padding(year) + ordinal - 1) % 7,
{
    let before = crate::calendar::days_before_year(year);
    assert((before + ordinal - 1) % 7 == (before % 7 + ordinal - 1) % 7) by {
        vstd::arithmetic::div_mod::lemma_add_mod_noop(before, ordinal - 1, 7);
        vstd::arithmetic::div_mod::lemma_add_mod_noop(before % 7, ordinal - 1, 7);
        vstd::arithmetic::div_mod::lemma_mod_twice(before, 7);
    }
}

/// A year fits the grid unless it is leap and begins on a Sunday. All but the
/// last day of such a year fit.
pub proof fn lemma_year_fits(year: int)
    ensures
        year_fits(year) <==> !(crate::calendar::is_leap_year(year) && leading_padding(year) == 6),
        leading_padding(year) + days_in_year(year) - 1 <= GRID_CELLS,
{
    lemma_row_is_weekday(year, 1);
}

/// In the grid of a year that fits, every day of the year has exactly one
/// cell, that cell is no padding, no two days share a cell, and every cell
/// that is no padding is the cell of a day of the year.
pub proof fn lemma_each_day_has_one_cell(
    grid: CalendarGrid,
    year: int,
    today: Date,
    schedule: Seq<Day>,
    logs: Seq<Date>,
)
    requires
        grid.is_grid_of(year, today, schedule, logs),
        year_fits(year),
    ensures
        grid.cells@.len() == 371,
        forall|ordinal: int|
            1 <= ordinal <= days_in_year(year) ==> {
                &&& 0 <= #[trigger] cell_of_day(year, ordinal) < 371
                &&& grid.cells@[cell_of_day(year, ordinal)] != DayCell::NotInYear
            },
        forall|a: int, b: int|
            #[trigger] cell_of_day(year, a) == #[trigger] cell_of_day(year, b) ==> a == b,
        forall|index: int|
            0 <= index < 371 && #[trigger] grid.cells@[index] != DayCell::NotInYear ==> {
                let ordinal = index - leading_padding(year) + 1;
                1 <= ordinal <= days_in_year(year) && cell_of_day(year, ordinal) == index
            },
{
    lemma_row_is_weekday(year, 1);
    assert forall|ordinal: int| 1 <= ordinal <= days_in_year(year) implies {
        &&& 0 <= #[trigger] cell_of_day(year, ordinal) < 371
        &&& grid.cells@[cell_of_day(year, ordinal)] != DayCell::NotInYear
    } by {
        let index = cell_of_day(year, ordinal);
        assert(grid.cells@[index] == classify_cell(year, today, schedule, logs, index));
    }
}

/// In the grid of a leap year that begins on a Sunday, every day but the
/// last has exactly one cell, and no cell is padding but the six before the
/// first of January.
pub proof fn lemma_cut_year(
    grid: CalendarGrid,
    year: int,
    today: Date,
    schedule: Seq<Day>,
    logs: Seq<Date>,
)
    requires
        grid.is_grid_of(year, today, schedule, logs),
        !year_fits(year),
    ensures
        days_in_year(year) == 366,
        leading_padding(year) == 6,
        cell_of_day(year, 366) == 371,
        forall|ordinal: int|
            1 <= ordinal <= 365 ==> {
                &&& 0 <= #[trigger] cell_of_day(year, ordinal) < 371
                &&& grid.cells@[cell_of_day(year, ordinal)] != DayCell::NotInYear
            },
        forall|index: int|
            0 <= index < 371 ==> (#[trigger] grid.cells@[index] == DayCell::NotInYear <==> index
                < 6),
{
    lemma_year_fits(year);
    assert forall|ordinal: int| 1 <= ordinal <= 365 implies {
        &&& 0 <= #[trigger] cell_of_day(year, ordinal) < 371
        &&& grid.cells@[cell_of_day(year, ordinal)] != DayCell::NotInYear
    } by {
        let index = cell_of_day(year, ordinal);
        assert(grid.cells@[index] == classify_cell(year, today, schedule, logs, index));
    }
    assert forall|index: int| 0 <= index < 371 implies (#[trigger] grid.cells@[index]
        == DayCell::NotInYear <==> index < 6) by {
        assert(grid.cells@[index] == classify_cell(year, today, schedule, logs, index));
    }
}

/// For a habit that is due on Mondays only, the cell of a logged Monday that
/// is not after today says that the habit was due and done, and the cell of
/// the Tuesday after it, where that is a day of the same year and not after
/// today, says that the habit was not due.
pub proof fn lemma_monday_only(
    grid: CalendarGrid,
    today: Date,
    logs: Seq<Date>,
    monday: Date,
)
    requires
        monday.valid(),
        monday.weekday() == 0,
        logs.contains(monday),
        grid.is_grid_of(monday.year as int, today, seq![Day::Monday], logs),
        !is_to_come(monday.year as int, today, monday.ordinal()),
        cell_of_day(monday.year as int, monday.ordinal()) < 371,
    ensures
        0 <= cell_of_day(monday.year as int, monday.ordinal()) < 371,
        grid.cells@[cell_of_day(monday.year as int, monday.ordinal())] == DayCell::ShouldHabit(
            true,
        ),
        monday.ordinal() < days_in_year(monday.year as int) && !is_to_come(
            monday.year as int,
            today,
            monday.ordinal() + 1,
        ) ==> {
            &&& cell_of_day(monday.year as int, monday.ordinal() + 1) < 371
            &&& grid.cells@[cell_of_day(monday.year as int, monday.ordinal() + 1)]
                == DayCell::ShouldNotHabit
        },
{
    let year = monday.year as int;
    let ordinal = monday.ordinal();
    let schedule = seq![Day::Monday];
    lemma_ordinal_bounds(monday);
    lemma_row_is_weekday(year, ordinal);
    lemma_row_is_weekday(year, ordinal + 1);
    let index = cell_of_day(year, ordinal);
    assert(grid.cells@[index] == classify_cell(year, today, schedule, logs, index));
    assert(schedule[0] == Day::Monday);
    let j = choose|j: int| 0 <= j < logs.len() && logs[j] == monday;
    assert(is_log_of(logs[j], year, ordinal));
    if ordinal < days_in_year(year) && !is_to_come(year, today, ordinal + 1) {
        assert(index % 7 == 0);
        assert(grid.cells@[index + 1] == classify_cell(year, today, schedule, logs, index + 1));
        assert(Day::at(weekday_index(year, ordinal + 1)) == Day::Tuesday);
        assert(!schedule.contains(Day::Tuesday));
    }
}

/// For each weekday, whether `schedule` holds it.
fn schedule_flags(schedule: &Vec<Day>) -> (flags: Vec<bool>)
    ensures
        flags@.len() == 7,
        forall|k: int| 0 <= k < 7 ==> #[trigger] flags@[k] == schedule@.contains(Day::at(k)),
{
    let mut flags: Vec<bool> = vec![false, false, false, false, false, false, false];
    let mut i: usize = 0;
    while i < schedule.len()
        invariant
            i <= schedule@.len(),
            flags@.len() == 7,
            forall|k: int|
                0 <= k < 7 ==> #[trigger] flags@[k] == schedule@.take(i as int).contains(
                    Day::at(k),
                ),
        decreases schedule@.len() - i,
    {
        let position = schedule[i].position() as usize;
        let ghost before = flags@;
        flags.set(position, true);
        proof {
            let taken = schedule@.take(i as int);
            let next = schedule@.take(i + 1);
            assert(next == taken.push(schedule@[i as int]));
            assert forall|k: int| 0 <= k < 7 implies #[trigger] flags@[k] == next.contains(
                Day::at(k),
            ) by {
                if k == position {
                    assert(next[i as int] == Day::at(k));
                } else if before[k] {
                    let j = choose|j: int| 0 <= j < taken.len() && taken[j] == Day::at(k);
                    assert(next[j] == Day::at(k));
                } else if next.contains(Day::at(k)) {
                    let j = choose|j: int| 0 <= j < next.len() && next[j] == Day::at(k);
                    if j < i {
                        assert(taken[j] == Day::at(k));
                    }
                }
            }
        }
        i += 1;
    }
    proof {
        assert(schedule@.take(schedule@.len() as int) == schedule@);
    }
    flags
}

/// For each day of `year`, whether `logs` holds its date. Index 0 stands for
/// no day.
fn log_flags(logs: &Vec<Date>, year: i32) -> (flags: Vec<bool>)
    requires
        forall|j: int| 0 <= j < logs@.len() ==> (#[trigger] logs@[j]).valid(),
    ensures
        flags@.len() == 367,
        forall|d: int| 0 <= d < 367 ==> #[trigger] flags@[d] == logged_on(logs@, year as int, d),
{
    let mut flags: Vec<bool> = Vec::new();
    let mut d: usize = 0;
    while d < 367
        invariant
            d <= 367,
            flags@.len() == d,
            forall|k: int| 0 <= k < d ==> !(#[trigger] flags@[k]),
        decreases 367 - d,
    {
        flags.push(false);
        d += 1;
    }
    let mut i: usize = 0;
    while i < logs.len()
        invariant
            i <= logs@.len(),
            flags@.len() == 367,
            forall|j: int| 0 <= j < logs@.len() ==> (#[trigger] logs@[j]).valid(),
            forall|d: int|
                0 <= d < 367 ==> #[trigger] flags@[d] == logged_on(
                    logs@.take(i as int),
                    year as int,
                    d,
                ),
        decreases logs@.len() - i,
    {
        let log = logs[i];
        let ghost before = flags@;
        let ghost taken = logs@.take(i as int);
        let ghost next = logs@.take(i + 1);
        proof {
            lemma_ordinal_bounds(log);
            assert(next == taken.push(log));
        }
        if log.year == year {
            let ordinal = nth_day_of_year(&log) as usize;
            flags.set(ordinal, true);
        }
        proof {
            assert forall|d: int| 0 <= d < 367 implies #[trigger] flags@[d] == logged_on(
                next,
                year as int,
                d,
            ) by {
                if is_log_of(log, year as int, d) {
                    assert(is_log_of(next[i as int], year as int, d));
                } else if before[d] {
                    let j = choose|j: int|
                        0 <= j < taken.len() && is_log_of(#[trigger] taken[j], year as int, d);
                    assert(is_log_of(next[j], year as int, d));
                } else if logged_on(next, year as int, d) {
                    let j = choose|j: int|
                        0 <= j < next.len() && is_log_of(#[trigger] next[j], year as int, d);
                    if j < i {
                        assert(is_log_of(taken[j], year as int, d));
                    }
                }
            }
        }
        i += 1;
    }
    proof {
        assert(logs@.take(logs@.len() as int) == logs@);
    }
    flags
}

/// The classified days of one year.
#[derive(Debug, Clone)]
pub struct CalendarGrid {
    /// The year of the grid.
    pub year: i32,
    /// The cells, week after week: cell `7 * c + r` is in column `c` and
    /// row `r`.
    pub cells: Vec<DayCell>,
    /// The index of today's cell, where today lies in the year of the grid.
    /// For the 31st of December of a leap year that begins on a Sunday it
    /// is 371, one past the last cell.
    pub today: Option<usize>,
}

impl CalendarGrid {
    /// Whether the grid has its 371 cells and the index of today, if any,
    /// is at most one past them.
    pub open spec fn wf(self) -> bool {
        &&& self.cells@.len() == GRID_CELLS
        &&& self.today matches Some(index) ==> index <= GRID_CELLS
    }

    /// Whether the grid is that of `year` for a habit due on `schedule` and
    /// logged on `logs`, seen on the day `today`.
    pub open spec fn is_grid_of(
        self,
        year: int,
        today: Date,
        schedule: Seq<Day>,
        logs: Seq<Date>,
    ) -> bool {
        &&& self.year == year
        &&& self.cells@.len() == GRID_CELLS
        &&& forall|index: int|
            0 <= index < GRID_CELLS ==> #[trigger] self.cells@[index] == classify_cell(
                year,
                today,
                schedule,
                logs,
                index,
            )
        &&& self.today == today_cell(year, today)
    }

    /// The grid of `year` for a habit that is due on the weekdays of
    /// `schedule` and has a log on each date of `logs`, as it stands on the
    /// day `today`. Logs of other years count for nothing.
    pub fn build(year: i32, today: &Date, schedule: &Vec<Day>, logs: &Vec<Date>) -> (grid:
        CalendarGrid)
        requires
            MIN_YEAR <= year <= MAX_YEAR,
            today.valid(),
            forall|j: int| 0 <= j < logs@.len() ==> (#[trigger] logs@[j]).valid(),
        ensures
            grid.is_grid_of(year as int, *today, schedule@, logs@),
            grid.wf(),
            grid.cells@.len() == 371,
            year == today.year ==> grid.today == Some(
                (today.ordinal() - 1 + leading_padding(year as int)) as usize,
            ),
            year != today.year ==> grid.today.is_none(),
    {
        let first = Date { year, month: 1, day: 1 };
        let last = Date { year, month: 12, day: 31 };
        proof {
            lemma_ordinal_bounds(first);
            lemma_ordinal_bounds(last);
            lemma_ordinal_bounds(*today);
            lemma_row_is_weekday(year as int, 1);
        }
        let lead = weekday_from_monday(&first) as usize;
        let days = nth_day_of_year(&last) as usize;
        let due = schedule_flags(schedule);
        let logged = log_flags(logs, year);
        let same_year = today.year == year;
        let today_ordinal = nth_day_of_year(today) as usize;
        let mut cells: Vec<DayCell> = Vec::new();
        let mut index: usize = 0;
        while index < GRID_CELLS
            invariant
                index <= GRID_CELLS,
                cells@.len() == index,
                lead == leading_padding(year as int),
                lead < 7,
                days == days_in_year(year as int),
                same_year == (today.year == year),
                today_ordinal == today.ordinal(),
                due@.len() == 7,
                forall|k: int|
                    0 <= k < 7 ==> #[trigger] due@[k] == schedule@.contains(Day::at(k)),
                logged@.len() == 367,
                forall|d: int|
                    0 <= d < 367 ==> #[trigger] logged@[d] == logged_on(logs@, year as int, d),
                forall|i: int|
                    0 <= i < index ==> #[trigger] cells@[i] == classify_cell(
                        year as int,
                        *today,
                        schedule@,
                        logs@,
                        i,
                    ),
            decreases GRID_CELLS - index,
        {
            let cell = if index < lead || index >= lead + days {
                DayCell::NotInYear
            } else {
                let ordinal = index - lead + 1;
                proof {
                    lemma_row_is_weekday(year as int, ordinal as int);
                }
                if same_year && ordinal > today_ordinal {
                    DayCell::ToCome
                } else if due[index % 7] {
                    DayCell::ShouldHabit(logged[ordinal])
                } else {
                    DayCell::ShouldNotHabit
                }
            };
            cells.push(cell);
            index += 1;
        }
        let today_index = if same_year {
            Some(today_ordinal - 1 + lead)
        } else {
            None
        };
        CalendarGrid { year, cells, today: today_index }
    }
}

} // verus!
