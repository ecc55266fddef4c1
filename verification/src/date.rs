//! Calendar dates as plain (year, month, day) values: validity, ordering,
//! a linear day numbering used to reason about date arithmetic, and clamping
//! against an optional inclusive date range.

use vstd::prelude::*;

use crate::month::days_in_month;
use crate::month::is_leap_year;

verus! {

/// The earliest year a valid `CalendarDate` may carry.
pub const MIN_YEAR: i32 = -262143;

/// The latest year a valid `CalendarDate` may carry.
pub const MAX_YEAR: i32 = 262142;

/// A calendar date: a signed year, a zero-based month (0 to 11) and a
/// zero-based day of the month. Ordered by (year, month, day).
#[derive(Clone, Copy, PartialEq, Eq, Structural, Debug)]
pub struct CalendarDate {
    /// The year.
    pub year: i32,
    /// The zero-based month, 0 being January.
    pub month: i32,
    /// The zero-based day of the month, 0 being the first day.
    pub day: i32,
}

/// The length of `year` in days.
pub open spec fn year_length(year: int) -> int {
    if is_leap_year(year) {
        366
    } else {
        365
    }
}

/// The number of days of `year` that lie before its zero-based `month`.
pub open spec fn days_before_month(year: int, month: int) -> int
    decreases month,
{
    if month <= 0 {
        0
    } else {
        days_before_month(year, month - 1) + days_in_month(year, month - 1)
    }
}

/// The number of days between the first day of year 0 and the first day of
/// `year`; negative for years before year 0.
pub open spec fn days_before_year(year: int) -> int
    decreases vstd::math::abs(year),
{
    if year == 0 {
        0
    } else if year > 0 {
        days_before_year(year - 1) + year_length(year - 1)
    } else {
        days_before_year(year + 1) - year_length(year)
    }
}

/// The day number of `(year, month, day)`: its distance in days from the
/// first day of year 0. The mapping is linear in `day`, so `day` may also
/// stand outside its month.
pub open spec fn day_number_of(year: int, month: int, day: int) -> int {
    days_before_year(year) + days_before_month(year, month) + day
}

impl CalendarDate {
    /// A date is valid when its month and day exist in the calendar and its
    /// year lies within the supported span.
    pub open spec fn valid(self) -> bool {
        &&& MIN_YEAR <= self.year <= MAX_YEAR
        &&& 0 <= self.month < 12
        &&& 0 <= self.day < days_in_month(self.year as int, self.month as int)
    }

    /// The distance in days from the first day of year 0.
    pub open spec fn day_number(self) -> int {
        day_number_of(self.year as int, self.month as int, self.day as int)
    }

    /// Strict lexicographic order on (year, month, day).
    pub open spec fn spec_lt(self, other: CalendarDate) -> bool {
        ||| self.year < other.year
        ||| (self.year == other.year && self.month < other.month)
        ||| (self.year == other.year && self.month == other.month && self.day < other.day)
    }

    /// Builds a date from a year, a zero-based month and a zero-based day.
    pub fn new(year: i32, month: i32, day: i32) -> (r: CalendarDate)
        requires
            MIN_YEAR <= year <= MAX_YEAR,
            0 <= month < 12,
            0 <= day < days_in_month(year as int, month as int),
        ensures
            r == (CalendarDate { year, month, day }),
            r.valid(),
    {
        CalendarDate { year, month, day }
    }

    /// True when this date comes strictly before `other`.
    pub fn lt(&self, other: &CalendarDate) -> (r: bool)
        ensures
            r == self.spec_lt(*other),
    {
        self.year < other.year || (self.year == other.year && self.month < other.month) || (
        self.year == other.year && self.month == other.month && self.day < other.day)
    }
}

/// `date` clamped into the optional inclusive range: pulled up to `earliest`
/// first, then down to `latest`.
pub open spec fn spec_clamp(
    date: CalendarDate,
    earliest: Option<CalendarDate>,
    latest: Option<CalendarDate>,
) -> CalendarDate {
    let raised = match earliest {
        Some(e) => if date.spec_lt(e) {
            e
        } else {
            date
        },
        None => date,
    };
    match latest {
        Some(l) => if l.spec_lt(raised) {
            l
        } else {
            raised
        },
        None => raised,
    }
}

/// Clamps `date` into the optional inclusive range, raising it to `earliest`
/// before lowering it to `latest`.
pub fn clamp_date(
    date: CalendarDate,
    earliest: Option<CalendarDate>,
    latest: Option<CalendarDate>,
) -> (r: CalendarDate)
    ensures
        r == spec_clamp(date, earliest, latest),
{
    let mut result = date;
    if let Some(e) = earliest {
        if result.lt(&e) {
            result = e;
        }
    }
    if let Some(l) = latest {
        if l.lt(&result) {
            result = l;
        }
    }
    result
}

/// Clamping a date that already lies within the range leaves it unchanged.
pub proof fn lemma_clamp_in_range_identity(
    date: CalendarDate,
    earliest: Option<CalendarDate>,
    latest: Option<CalendarDate>,
)
    requires
        earliest is Some ==> !date.spec_lt(earliest->Some_0),
        latest is Some ==> !(latest->Some_0).spec_lt(date),
    ensures
        spec_clamp(date, earliest, latest) == date,
{
}

/// Stepping a year forward moves the first day of the year onward by exactly
/// that year's length.
pub proof fn lemma_days_before_year_step(year: int)
    ensures
        days_before_year(year + 1) == days_before_year(year) + year_length(year),
{
    if year >= 0 {
        assert(days_before_year(year + 1) == days_before_year(year) + year_length(year));
    } else {
        assert(days_before_year(year) == days_before_year(year + 1) - year_length(year));
    }
}

/// Later years begin at strictly larger day numbers: each year contributes
/// between 365 and 366 days.
pub proof fn lemma_days_before_year_mono(y1: int, y2: int)
    requires
        y1 <= y2,
    ensures
        days_before_year(y1) + 365 * (y2 - y1) <= days_before_year(y2),
        days_before_year(y2) <= days_before_year(y1) + 366 * (y2 - y1),
    decreases y2 - y1,
{
    if y1 < y2 {
        lemma_days_before_year_mono(y1, y2 - 1);
        lemma_days_before_year_step(y2 - 1);
    }
}

/// Later months of a year begin at strictly larger offsets: each month
/// contributes between 28 and 31 days.
pub proof fn lemma_days_before_month_mono(year: int, m1: int, m2: int)
    requires
        0 <= m1 <= m2 <= 12,
    ensures
        days_before_month(year, m1) + 28 * (m2 - m1) <= days_before_month(year, m2),
        days_before_month(year, m2) <= days_before_month(year, m1) + 31 * (m2 - m1),
    decreases m2 - m1,
{
    if m1 < m2 {
        lemma_days_before_month_mono(year, m1, m2 - 1);
    }
}

/// The twelve months of a year together fill exactly the year.
pub proof fn lemma_months_fill_year(year: int)
    ensures
        days_before_month(year, 12) == year_length(year),
{
    reveal_with_fuel(days_before_month, 13);
}

/// The day number of a date whose month and day exist in the calendar lies
/// within the span of its year.
pub proof fn lemma_day_number_within_year(year: int, month: int, day: int)
    requires
        0 <= month < 12,
        0 <= day < days_in_month(year, month),
    ensures
        days_before_year(year) <= day_number_of(year, month, day),
        day_number_of(year, month, day) < days_before_year(year + 1),
{
    lemma_days_before_month_mono(year, 0, month);
    assert(days_before_month(year, month + 1) == days_before_month(year, month) + days_in_month(
        year,
        month,
    ));
    lemma_days_before_month_mono(year, month + 1, 12);
    lemma_months_fill_year(year);
    lemma_days_before_year_step(year);
}

/// Two (year, month, day) triples whose months and days exist in the
/// calendar and whose day numbers agree are the same triple: the day
/// numbering is injective on existing dates.
pub proof fn lemma_day_number_of_injective(y1: int, m1: int, d1: int, y2: int, m2: int, d2: int)
    requires
        0 <= m1 < 12,
        0 <= d1 < days_in_month(y1, m1),
        0 <= m2 < 12,
        0 <= d2 < days_in_month(y2, m2),
        day_number_of(y1, m1, d1) == day_number_of(y2, m2, d2),
    ensures
        y1 == y2,
        m1 == m2,
        d1 == d2,
{
    lemma_day_number_within_year(y1, m1, d1);
    lemma_day_number_within_year(y2, m2, d2);
    if y1 < y2 {
        lemma_days_before_year_mono(y1 + 1, y2);
        assert(false);
    }
    if y2 < y1 {
        lemma_days_before_year_mono(y2 + 1, y1);
        assert(false);
    }
    if m1 < m2 {
        assert(days_before_month(y1, m1 + 1) == days_before_month(y1, m1) + days_in_month(y1, m1));
        lemma_days_before_month_mono(y1, m1 + 1, m2);
        assert(false);
    }
    if m2 < m1 {
        assert(days_before_month(y2, m2 + 1) == days_before_month(y2, m2) + days_in_month(y2, m2));
        lemma_days_before_month_mono(y2, m2 + 1, m1);
        assert(false);
    }
}

} // verus!
