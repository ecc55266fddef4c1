//! Grid layout planning: the cell sets drawn in the three view modes, each
//! cell's highlight category, and the widget's footprint. The embedding UI
//! maps highlight categories to concrete styling and prints the cells.

use vstd::prelude::*;

use chrono::Datelike;

use crate::CalendarView;
use crate::calculus::lemma_shift_some_props;
use crate::calculus::spec_shift;
use crate::date::CalendarDate;
use crate::date::MAX_YEAR;
use crate::date::MIN_YEAR;
use crate::date::day_number_of;
use crate::month::Month;
use crate::month::days_in_month;
use crate::month::days_in_prev_month;
use crate::rem_trunc;
use crate::calculus::date_from_day_and_offsets;
use crate::week_day::WeekDay;

verus! {

/// The weekday of the calendar date `(year, month, day)` (month and day
/// zero-based), as a zero-based index counted from Monday: in the proleptic
/// Gregorian calendar weekdays cycle with the day number, and the first day
/// of year 0 is a Saturday.
pub open spec fn weekday_of(year: int, month: int, day: int) -> int {
    (day_number_of(year, month, day) + 5) % 7
}

/// The ISO-8601 week number of the calendar date `(year, month, day)`
/// (month and day zero-based). The result depends on the date alone.
pub uninterp spec fn iso_week_of(year: int, month: int, day: int) -> int;

/// Relies on chrono's `NaiveDate::from_ymd_opt` (which returns a date for
/// every existing day of a year within its supported span) and
/// `Datelike::weekday` with `Weekday::num_days_from_monday` (the weekday of
/// that date, indexed 0 to 6 from Monday). Chrono's calendar is the
/// proleptic Gregorian one, whose weekdays cycle with the day number and
/// fall on a Saturday on the first day of year 0.
#[verifier::external_body]
pub(crate) fn weekday_index(year: i32, month: i32, day: i32) -> (r: i32)
    requires
        MIN_YEAR <= year <= MAX_YEAR,
        0 <= month < 12,
        0 <= day < days_in_month(year as int, month as int),
    ensures
        r as int == weekday_of(year as int, month as int, day as int),
        0 <= r < 7,
{
    let date = chrono::NaiveDate::from_ymd_opt(year, (month + 1) as u32, (day + 1) as u32)
        .expect("an existing date within the supported years");
    date.weekday().num_days_from_monday() as i32
}

/// Relies on chrono's `NaiveDate::from_ymd_opt` (which returns a date for
/// every existing day of a year within its supported span) and
/// `Datelike::iso_week` with `IsoWeek::week` (the ISO-8601 week number of
/// that date, 1 to 53).
#[verifier::external_body]
pub(crate) fn iso_week_number(year: i32, month: i32, day: i32) -> (r: u32)
    requires
        MIN_YEAR <= year <= MAX_YEAR,
        0 <= month < 12,
        0 <= day < days_in_month(year as int, month as int),
    ensures
        r as int == iso_week_of(year as int, month as int, day as int),
        1 <= r <= 53,
{
    let date = chrono::NaiveDate::from_ymd_opt(year, (month + 1) as u32, (day + 1) as u32)
        .expect("an existing date within the supported years");
    date.iso_week().week()
}

/// The highlight category of a grid cell. The embedding UI maps categories,
/// together with the widget's enabled state and focus, to concrete styling.
#[derive(Clone, Copy, PartialEq, Eq, Structural, Debug)]
pub enum CellHighlight {
    /// The cell lies outside the configured date range.
    Unavailable,
    /// The cell carries the cursor.
    Cursor,
    /// The cell carries the committed selection.
    Selected,
    /// The cell belongs to a neighboring month or decade.
    Neighbor,
    /// The cell belongs to a neighboring month or decade and carries the
    /// committed selection.
    NeighborSelected,
    /// An ordinary cell.
    Normal,
}

/// One cell of the day grid.
#[derive(Clone, Copy, PartialEq, Eq, Structural, Debug)]
pub struct DayCell {
    /// The column of the cell's text within the widget.
    pub x: usize,
    /// The row of the cell's text within the widget.
    pub y: usize,
    /// The one-based day number the cell shows.
    pub day: i32,
    /// The ISO week number reported beside the row: carried by row-leading
    /// cells when week numbers are enabled.
    pub week: Option<u32>,
    /// The highlight category of the cell.
    pub highlight: CellHighlight,
}

/// One cell of the month grid.
#[derive(Clone, Copy, PartialEq, Eq, Structural, Debug)]
pub struct MonthCell {
    /// The column of the cell's text within the widget.
    pub x: usize,
    /// The row of the cell's text within the widget.
    pub y: usize,
    /// The month the cell shows.
    pub month: Month,
    /// The highlight category of the cell.
    pub highlight: CellHighlight,
}

/// One cell of the decade grid.
#[derive(Clone, Copy, PartialEq, Eq, Structural, Debug)]
pub struct YearCell {
    /// The column of the cell's text within the widget.
    pub x: usize,
    /// The row of the cell's text within the widget.
    pub y: usize,
    /// The year the cell shows.
    pub year: i32,
    /// The highlight category of the cell.
    pub highlight: CellHighlight,
}

impl CalendarView {
    /// How many cells of the previous month precede day 0 in the day grid:
    /// the weekday of the first of the cursor's month, rotated so the
    /// configured week start lands in the first column.
    pub open spec fn spec_day_grid_offset(self) -> int {
        (weekday_of(self.view_date.year as int, self.view_date.month as int, 0) + (7
            - self.week_start.ord()) % 7) % 7
    }

    /// How many cells of the previous month precede day 0 in the day grid.
    pub fn day_grid_offset(&self) -> (r: i32)
        requires
            self.wf(),
        ensures
            r as int == self.spec_day_grid_offset(),
            0 <= r < 7,
    {
        let first = weekday_index(self.view_date.year, self.view_date.month, 0);
        let w = self.week_start.index();
        let d_shift = (7 - w) % 7;
        (first + d_shift) % 7
    }

    /// The seven weekdays in display order, starting at the configured week
    /// start.
    pub fn week_day_row(&self) -> (r: Vec<WeekDay>)
        ensures
            r@.len() == 7,
            forall|j: int|
                0 <= j < 7 ==> (#[trigger] r@[j]).ord() == (j + self.week_start.ord()) % 7,
    {
        let w = self.week_start.index();
        let mut row: Vec<WeekDay> = Vec::new();
        let mut i: i32 = 0;
        while i < 7
            invariant
                0 <= i <= 7,
                w as int == self.week_start.ord(),
                0 <= w < 7,
                row@.len() == i as int,
                forall|j: int|
                    0 <= j < i ==> (#[trigger] row@[j]).ord() == (j + self.week_start.ord()) % 7,
            decreases 7 - i,
        {
            row.push(WeekDay::from_index(i + w));
            i = i + 1;
        }
        row
    }

    /// The day cell at `index` of the 42-cell day grid: its position, the
    /// day number it shows, its highlight, and the ISO week number on
    /// row-leading cells when week numbers are enabled. Nothing only when
    /// the cell's date would leave the supported years.
    pub open spec fn spec_day_cell(self, index: int) -> Option<DayCell> {
        let h = if self.show_iso_weeks {
            3int
        } else {
            0int
        };
        let month_days = days_in_month(self.view_date.year as int, self.view_date.month as int);
        let prev_days = days_in_prev_month(self.view_date.year as int, self.view_date.month as int);
        let i = index - self.spec_day_grid_offset();
        let day_number = if i < 0 {
            prev_days + i
        } else if i > month_days - 1 {
            i - month_days
        } else {
            i
        };
        let month_offset = if i < 0 {
            -1int
        } else if i > month_days - 1 {
            1int
        } else {
            0int
        };
        match spec_shift(self.view_date, Some(day_number as i32), 0, month_offset, 0) {
            Option::None => Option::<DayCell>::None,
            Option::Some(exact) => Option::Some(
                DayCell {
                    x: (h + (index % 7) * 3) as usize,
                    y: (2 + index / 7) as usize,
                    day: (day_number + 1) as i32,
                    week: if self.show_iso_weeks && index % 7 == 0 {
                        Some(
                            iso_week_of(
                                exact.year as int,
                                exact.month as int,
                                exact.day as int,
                            ) as u32,
                        )
                    } else {
                        None
                    },
                    highlight: self.spec_day_cell_highlight(i, exact, month_days, prev_days),
                },
            ),
        }
    }

    /// The highlight of the day cell at in-month index `i` whose date is
    /// `exact`: range unavailability comes first, then neighboring months,
    /// the cursor, the selection, and lastly an ordinary day.
    pub open spec fn spec_day_cell_highlight(
        self,
        i: int,
        exact: CalendarDate,
        month_days: int,
        prev_days: int,
    ) -> CellHighlight {
        if !self.spec_date_available(exact) {
            CellHighlight::Unavailable
        } else if i < 0 {
            if self.date.day == prev_days + i && self.date.month == self.view_date.month - 1
                && self.date.year == self.view_date.year {
                CellHighlight::NeighborSelected
            } else {
                CellHighlight::Neighbor
            }
        } else if i > month_days - 1 {
            if self.date.day == i - month_days && self.date.month == self.view_date.month + 1
                && self.date.year == self.view_date.year {
                CellHighlight::NeighborSelected
            } else {
                CellHighlight::Neighbor
            }
        } else if self.view_date.day == i {
            CellHighlight::Cursor
        } else if self.date.day == i && self.date.month == self.view_date.month && self.date.year
            == self.view_date.year {
            CellHighlight::Selected
        } else {
            CellHighlight::Normal
        }
    }

    /// Plans the 42 cells of the day grid for the cursor's month: 6 rows of
    /// 7 day columns, leading and trailing cells taken from the neighboring
    /// months.
    pub fn draw_month(&self) -> (cells: Vec<Option<DayCell>>)
        requires
            self.wf(),
        ensures
            cells@.len() == 42,
            forall|i: int| 0 <= i < 42 ==> #[trigger] cells@[i] == self.spec_day_cell(i),
    {
        let year = self.view_date.year;
        let month = Month::from_index(self.view_date.month);
        let month_days = month.number_of_days(year);
        let prev_month_days = month.prev_number_of_days(year);
        let d_offset = self.day_grid_offset();
        let h_offset: i32 = if self.show_iso_weeks {
            3
        } else {
            0
        };

        let mut cells: Vec<Option<DayCell>> = Vec::new();
        let mut index: i32 = 0;
        while index < 42
            invariant
                self.wf(),
                0 <= index <= 42,
                cells@.len() == index as int,
                year == self.view_date.year,
                month_days as int == days_in_month(
                    self.view_date.year as int,
                    self.view_date.month as int,
                ),
                prev_month_days as int == days_in_prev_month(
                    self.view_date.year as int,
                    self.view_date.month as int,
                ),
                28 <= month_days <= 31,
                28 <= prev_month_days <= 31,
                d_offset as int == self.spec_day_grid_offset(),
                0 <= d_offset < 7,
                h_offset as int == (if self.show_iso_weeks {
                    3int
                } else {
                    0int
                }),
                forall|i: int| 0 <= i < index ==> #[trigger] cells@[i] == self.spec_day_cell(i),
            decreases 42 - index,
        {
            let i = index - d_offset;
            let (day_number, month_offset): (i32, i32) = if i < 0 {
                (prev_month_days + i, -1)
            } else if i > month_days - 1 {
                (i - month_days, 1)
            } else {
                (i, 0)
            };
            let cell: Option<DayCell> = match date_from_day_and_offsets(
                &self.view_date,
                Some(day_number),
                0,
                month_offset,
                0,
            ) {
                Option::None => Option::None,
                Option::Some(exact) => {
                    proof {
                        lemma_shift_some_props(
                            self.view_date,
                            Some(day_number),
                            0,
                            month_offset as int,
                            0,
                            exact,
                        );
                    }
                    let week: Option<u32> = if self.show_iso_weeks && index % 7 == 0 {
                        Some(iso_week_number(exact.year, exact.month, exact.day))
                    } else {
                        None
                    };
                    let highlight = self.day_cell_highlight(i, &exact, month_days, prev_month_days);
                    Option::Some(
                        DayCell {
                            x: (h_offset + (index % 7) * 3) as usize,
                            y: (2 + index / 7) as usize,
                            day: day_number + 1,
                            week,
                            highlight,
                        },
                    )
                },
            };
            cells.push(cell);
            index = index + 1;
        }
        cells
    }

    /// The highlight of the day cell at in-month index `i` whose date is
    /// `exact`.
    fn day_cell_highlight(
        &self,
        i: i32,
        exact: &CalendarDate,
        month_days: i32,
        prev_days: i32,
    ) -> (r: CellHighlight)
        requires
            self.wf(),
            -7 <= i <= 42,
            0 <= prev_days <= 31,
            0 <= month_days <= 31,
        ensures
            r == self.spec_day_cell_highlight(i as int, *exact, month_days as int, prev_days as int),
    {
        if !self.date_available(exact) {
            CellHighlight::Unavailable
        } else if i < 0 {
            if self.date.day == prev_days + i && self.date.month == self.view_date.month - 1
                && self.date.year == self.view_date.year {
                CellHighlight::NeighborSelected
            } else {
                CellHighlight::Neighbor
            }
        } else if i > month_days - 1 {
            if self.date.day == i - month_days && self.date.month == self.view_date.month + 1
                && self.date.year == self.view_date.year {
                CellHighlight::NeighborSelected
            } else {
                CellHighlight::Neighbor
            }
        } else if self.view_date.day == i {
            CellHighlight::Cursor
        } else if self.date.day == i && self.date.month == self.view_date.month && self.date.year
            == self.view_date.year {
            CellHighlight::Selected
        } else {
            CellHighlight::Normal
        }
    }

    /// The month cell at `index` of the 12-cell month grid: its position,
    /// the month it shows, and its highlight.
    pub open spec fn spec_month_cell(self, index: int) -> MonthCell {
        let h = if self.show_iso_weeks {
            2int
        } else {
            0int
        };
        MonthCell {
            x: (h + (index % 4) * 5) as usize,
            y: (2 + (index / 4) * 2) as usize,
            month: Month::of_index(index),
            highlight: if !self.spec_month_available(index, self.view_date.year as int) {
                CellHighlight::Unavailable
            } else if self.view_date.month == index {
                CellHighlight::Cursor
            } else if self.date.month == index && self.date.year == self.view_date.year {
                CellHighlight::Selected
            } else {
                CellHighlight::Normal
            },
        }
    }

    /// Plans the 12 cells of the month grid for the cursor's year: 3 rows of
    /// 4 month columns.
    pub fn draw_year(&self) -> (cells: Vec<MonthCell>)
        requires
            self.wf(),
        ensures
            cells@.len() == 12,
            forall|i: int| 0 <= i < 12 ==> #[trigger] cells@[i] == self.spec_month_cell(i),
    {
        let h_offset: i32 = if self.show_iso_weeks {
            2
        } else {
            0
        };
        let mut cells: Vec<MonthCell> = Vec::new();
        let mut index: i32 = 0;
        while index < 12
            invariant
                self.wf(),
                0 <= index <= 12,
                cells@.len() == index as int,
                h_offset as int == (if self.show_iso_weeks {
                    2int
                } else {
                    0int
                }),
                forall|i: int| 0 <= i < index ==> #[trigger] cells@[i] == self.spec_month_cell(i),
            decreases 12 - index,
        {
            let highlight = if !self.month_available(index as u32, self.view_date.year) {
                CellHighlight::Unavailable
            } else if self.view_date.month == index {
                CellHighlight::Cursor
            } else if self.date.month == index && self.date.year == self.view_date.year {
                CellHighlight::Selected
            } else {
                CellHighlight::Normal
            };
            cells.push(
                MonthCell {
                    x: (h_offset + (index % 4) * 5) as usize,
                    y: (2 + (index / 4) * 2) as usize,
                    month: Month::from_index(index),
                    highlight,
                },
            );
            index = index + 1;
        }
        cells
    }

    /// The first year of the decade the cursor's year falls in, as the
    /// decade grid anchors it.
    pub open spec fn spec_decade_base(self) -> int {
        self.view_date.year - rem_trunc(self.view_date.year as int, 10)
    }

    /// The first year of the decade shown by the decade grid.
    pub fn decade_base(&self) -> (r: i32)
        requires
            self.wf(),
        ensures
            r as int == self.spec_decade_base(),
    {
        self.view_date.year - self.view_date.year % 10
    }

    /// The year cell at `index` of the 12-cell decade grid: the ten years
    /// of the cursor's decade, preceded and followed by one neighboring
    /// year each.
    pub open spec fn spec_year_cell(self, index: int) -> YearCell {
        let h = if self.show_iso_weeks {
            2int
        } else {
            0int
        };
        let i = index - 1;
        let year = self.spec_decade_base() + i;
        YearCell {
            x: (h + (index % 4) * 5) as usize,
            y: (2 + (index / 4) * 2) as usize,
            year: year as i32,
            highlight: if !self.spec_year_available(year) {
                CellHighlight::Unavailable
            } else if i < 0 || i > 9 {
                if self.date.year == year {
                    CellHighlight::NeighborSelected
                } else {
                    CellHighlight::Neighbor
                }
            } else if self.view_date.year == year {
                CellHighlight::Cursor
            } else if self.date.year == year {
                CellHighlight::Selected
            } else {
                CellHighlight::Normal
            },
        }
    }

    /// Plans the 12 cells of the decade grid: the ten years of the cursor's
    /// decade plus one out-of-decade neighbor on each side, in 3 rows of 4
    /// columns.
    pub fn draw_decade(&self) -> (cells: Vec<YearCell>)
        requires
            self.wf(),
        ensures
            cells@.len() == 12,
            forall|i: int| 0 <= i < 12 ==> #[trigger] cells@[i] == self.spec_year_cell(i),
    {
        let h_offset: i32 = if self.show_iso_weeks {
            2
        } else {
            0
        };
        let decade = self.decade_base();
        let mut cells: Vec<YearCell> = Vec::new();
        let mut index: i32 = 0;
        while index < 12
            invariant
                self.wf(),
                0 <= index <= 12,
                cells@.len() == index as int,
                decade as int == self.spec_decade_base(),
                h_offset as int == (if self.show_iso_weeks {
                    2int
                } else {
                    0int
                }),
                forall|i: int| 0 <= i < index ==> #[trigger] cells@[i] == self.spec_year_cell(i),
            decreases 12 - index,
        {
            let i = index - 1;
            let year = decade + i;
            let highlight = if !self.year_available(year) {
                CellHighlight::Unavailable
            } else if i < 0 || i > 9 {
                if self.date.year == year {
                    CellHighlight::NeighborSelected
                } else {
                    CellHighlight::Neighbor
                }
            } else if self.view_date.year == year {
                CellHighlight::Cursor
            } else if self.date.year == year {
                CellHighlight::Selected
            } else {
                CellHighlight::Normal
            };
            cells.push(
                YearCell {
                    x: (h_offset + (index % 4) * 5) as usize,
                    y: (2 + (index / 4) * 2) as usize,
                    year,
                    highlight,
                },
            );
            index = index + 1;
        }
        cells
    }

    /// The widget footprint: 20 by 8 cells, or 23 by 8 when ISO week
    /// numbers add their gutter.
    pub fn required_size(&self) -> (r: (usize, usize))
        ensures
            r == (if self.show_iso_weeks {
                (23usize, 8usize)
            } else {
                (20usize, 8usize)
            }),
    {
        if self.show_iso_weeks {
            (23, 8)
        } else {
            (20, 8)
        }
    }
}

} // verus!
