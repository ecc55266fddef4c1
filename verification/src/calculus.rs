//! Date arithmetic: shifting a date by day, month and year offsets, with
//! month lengths respected and day overflow carried across month and year
//! boundaries.

use vstd::prelude::*;

use crate::date::CalendarDate;
use crate::date::MAX_YEAR;
use crate::date::MIN_YEAR;
use crate::date::day_number_of;
use crate::date::days_before_month;
use crate::date::days_before_year;
use crate::date::lemma_day_number_of_injective;
use crate::date::lemma_days_before_year_step;
use crate::date::lemma_months_fill_year;
use crate::month::days_in_month;
use vstd::arithmetic::div_mod::lemma_fundamental_div_mod;
use vstd::arithmetic::div_mod::lemma_fundamental_div_mod_converse_div;
use vstd::arithmetic::div_mod::lemma_mod_bound;
use vstd::arithmetic::div_mod::lemma_fundamental_div_mod_converse_mod;

verus! {

/// The year of the anchor month reached from `(year, month)` by first adding
/// `year_offset` years and then `month_offset` months, carrying month
/// overflow into the year.
pub open spec fn anchor_year(year: int, month: int, month_offset: int, year_offset: int) -> int {
    year + year_offset + (month + month_offset) / 12
}

/// The zero-based month of the anchor month reached from `month` by adding
/// `month_offset` months.
pub open spec fn anchor_month(month: int, month_offset: int) -> int {
    (month + month_offset) % 12
}

/// The day the shift starts from within the anchor month `(ay, am)`: the
/// explicitly given day when there is one, else the original day clamped to
/// the last day of the anchor month.
pub open spec fn shift_base_day(date: CalendarDate, set_day: Option<i32>, ay: int, am: int) -> int {
    match set_day {
        Some(d) => d as int,
        None => vstd::math::min(days_in_month(ay, am) - 1, date.day as int),
    }
}

/// The day number a shift of `date` lands on.
pub open spec fn shift_target(
    date: CalendarDate,
    set_day: Option<i32>,
    day_offset: int,
    month_offset: int,
    year_offset: int,
) -> int {
    let ay = anchor_year(date.year as int, date.month as int, month_offset, year_offset);
    let am = anchor_month(date.month as int, month_offset);
    day_number_of(ay, am, shift_base_day(date, set_day, ay, am)) + day_offset
}

/// The valid date carrying the day number `n`, when one exists within the
/// supported span of years.
pub open spec fn date_of_day_number(n: int) -> Option<CalendarDate> {
    if exists|d: CalendarDate| d.valid() && d.day_number() == n {
        Some(choose|d: CalendarDate| d.valid() && d.day_number() == n)
    } else {
        None
    }
}

/// What shifting `date` by the given offsets returns: the unique valid date
/// on the target day number, or nothing when that date's year lies outside
/// the supported span.
pub open spec fn spec_shift(
    date: CalendarDate,
    set_day: Option<i32>,
    day_offset: int,
    month_offset: int,
    year_offset: int,
) -> Option<CalendarDate> {
    date_of_day_number(shift_target(date, set_day, day_offset, month_offset, year_offset))
}

/// A valid date is the one date its own day number maps back to.
pub proof fn lemma_date_of_day_number_unique(d: CalendarDate, n: int)
    requires
        d.valid(),
        d.day_number() == n,
    ensures
        date_of_day_number(n) == Some(d),
{
    assert(exists|x: CalendarDate| x.valid() && x.day_number() == n);
    let x = choose|x: CalendarDate| x.valid() && x.day_number() == n;
    lemma_day_number_of_injective(
        x.year as int,
        x.month as int,
        x.day as int,
        d.year as int,
        d.month as int,
        d.day as int,
    );
}

/// No valid date carries the day number of a calendar position whose year
/// lies outside the supported span.
proof fn lemma_date_of_day_number_none(y: int, m: int, d: int)
    requires
        0 <= m < 12,
        0 <= d < days_in_month(y, m),
        y < MIN_YEAR || y > MAX_YEAR,
    ensures
        date_of_day_number(day_number_of(y, m, d)) is None,
{
    let n = day_number_of(y, m, d);
    if exists|x: CalendarDate| x.valid() && x.day_number() == n {
        let x = choose|x: CalendarDate| x.valid() && x.day_number() == n;
        lemma_day_number_of_injective(x.year as int, x.month as int, x.day as int, y, m, d);
    }
}

/// The number of days of the zero-based `month` of `year`, over the wide
/// intermediate types the shift works in.
fn month_length(year: i64, month: i64) -> (r: i64)
    requires
        0 <= month < 12,
    ensures
        r as int == days_in_month(year as int, month as int),
        28 <= r <= 31,
{
    if month == 1 {
        if (year % 4 == 0 && year % 100 != 0) || year % 400 == 0 {
            29
        } else {
            28
        }
    } else if month == 3 || month == 5 || month == 8 || month == 10 {
        30
    } else {
        31
    }
}

/// Moving to the previous month keeps the day number when the day index
/// grows by that previous month's length.
proof fn lemma_day_number_prev_month(y: int, m: int, d: int)
    requires
        0 <= m < 12,
    ensures
        day_number_of(
            if m == 0 {
                y - 1
            } else {
                y
            },
            if m == 0 {
                11
            } else {
                m - 1
            },
            d + days_in_month(
                if m == 0 {
                    y - 1
                } else {
                    y
                },
                if m == 0 {
                    11
                } else {
                    m - 1
                },
            ),
        ) == day_number_of(y, m, d),
{
    if m == 0 {
        lemma_months_fill_year(y - 1);
        lemma_days_before_year_step(y - 1);
        assert(days_before_month(y - 1, 12) == days_before_month(y - 1, 11) + days_in_month(
            y - 1,
            11,
        ));
    } else {
        assert(days_before_month(y, m) == days_before_month(y, m - 1) + days_in_month(y, m - 1));
    }
}

/// Moving to the next month keeps the day number when the day index shrinks
/// by the current month's length.
proof fn lemma_day_number_next_month(y: int, m: int, d: int)
    requires
        0 <= m < 12,
    ensures
        day_number_of(
            if m == 11 {
                y + 1
            } else {
                y
            },
            if m == 11 {
                0
            } else {
                m + 1
            },
            d - days_in_month(y, m),
        ) == day_number_of(y, m, d),
{
    if m == 11 {
        lemma_months_fill_year(y);
        lemma_days_before_year_step(y);
        assert(days_before_month(y, 12) == days_before_month(y, 11) + days_in_month(y, 11));
    } else {
        assert(days_before_month(y, m + 1) == days_before_month(y, m) + days_in_month(y, m));
    }
}

/// Shifts `date` by `year_offset` years, then `month_offset` months and then
/// `day_offset` days. Month overflow carries into the year; the day is the
/// explicitly given `set_day` when present, else the original day clamped to
/// the length of the target month; day overflow and underflow carry across
/// month boundaries. Returns nothing only when the resulting year falls
/// outside the supported span.
pub fn date_from_day_and_offsets(
    date: &CalendarDate,
    set_day: Option<i32>,
    day_offset: i32,
    month_offset: i32,
    year_offset: i32,
) -> (r: Option<CalendarDate>)
    requires
        date.valid(),
    ensures
        r == spec_shift(*date, set_day, day_offset as int, month_offset as int, year_offset as int),
{
    let mut year: i64 = date.year as i64 + year_offset as i64;
    let mut month: i64 = date.month as i64 + month_offset as i64;

    // Normalize the month into [0, 12), borrowing into the year.
    let mut carry: i64 = month / 12;
    month = month % 12;
    if month < 0 {
        month += 12;
        carry -= 1;
    }
    year += carry;

    proof {
        let t = date.month as int + month_offset as int;
        lemma_fundamental_div_mod_converse_div(t, 12, carry as int, month as int);
        lemma_fundamental_div_mod_converse_mod(t, 12, carry as int, month as int);
        assert(year as int == anchor_year(
            date.year as int,
            date.month as int,
            month_offset as int,
            year_offset as int,
        ));
        assert(month as int == anchor_month(date.month as int, month_offset as int));
    }

    let base: i64 = match set_day {
        Some(d) => d as i64,
        None => {
            let len: i64 = month_length(year, month);
            let d: i64 = date.day as i64;
            if len - 1 <= d {
                len - 1
            } else {
                d
            }
        },
    };
    let mut day: i64 = base + day_offset as i64;

    let ghost n: int = shift_target(
        *date,
        set_day,
        day_offset as int,
        month_offset as int,
        year_offset as int,
    );
    let ghost y_start: int = year as int;
    let ghost d_start: int = day as int;

    assert(day_number_of(year as int, month as int, day as int) == n);
    assert(-0x2_0000_0000 <= y_start <= 0x2_0000_0000);
    assert(-0x2_0000_0000 <= d_start <= 0x2_0000_0000);

    // Carry day underflow backwards, one month at a time.
    while day < 0
        invariant
            0 <= month < 12,
            day_number_of(year as int, month as int, day as int) == n,
            -0x2_0000_0000 <= y_start <= 0x2_0000_0000,
            -0x2_0000_0000 <= d_start <= 0x2_0000_0000,
            year as int <= y_start,
            day as int >= d_start,
            28 * (year as int) + day as int >= 28 * y_start + d_start,
            day as int <= vstd::math::max(d_start, 30),
        decreases vstd::math::max(0, -(day as int)),
    {
        proof {
            lemma_day_number_prev_month(year as int, month as int, day as int);
        }
        if month == 0 {
            month = 11;
            year = year - 1;
        } else {
            month = month - 1;
        }
        let len: i64 = month_length(year, month);
        day = day + len;
    }

    // Carry day overflow forwards, one month at a time.
    let ghost y_mid: int = year as int;
    let ghost d_mid: int = day as int;
    let mut len: i64 = month_length(year, month);
    while day >= len
        invariant
            0 <= month < 12,
            day_number_of(year as int, month as int, day as int) == n,
            len as int == days_in_month(year as int, month as int),
            28 <= len <= 31,
            y_mid <= 0x2_0000_0000,
            0 <= day as int ==> day as int <= vstd::math::max(d_mid, 30),
            d_mid <= 0x2_0000_0000,
            day as int >= vstd::math::min(d_mid, 0),
            year as int >= y_mid,
            28 * (year as int) + day as int <= 28 * y_mid + vstd::math::max(d_mid, 30),
        decreases day as int,
    {
        day = day - len;
        proof {
            lemma_day_number_next_month(year as int, month as int, day as int + len as int);
        }
        if month == 11 {
            month = 0;
            year = year + 1;
        } else {
            month = month + 1;
        }
        len = month_length(year, month);
    }

    assert(0 <= day < days_in_month(year as int, month as int));

    if year < MIN_YEAR as i64 || year > MAX_YEAR as i64 {
        proof {
            lemma_date_of_day_number_none(year as int, month as int, day as int);
        }
        None
    } else {
        let result = CalendarDate { year: year as i32, month: month as i32, day: day as i32 };
        proof {
            lemma_date_of_day_number_unique(result, n);
        }
        Some(result)
    }
}

/// A successful shift returns a valid date sitting exactly on the target day
/// number.
pub proof fn lemma_shift_some_props(
    d: CalendarDate,
    set_day: Option<i32>,
    day_offset: int,
    month_offset: int,
    year_offset: int,
    r: CalendarDate,
)
    requires
        spec_shift(d, set_day, day_offset, month_offset, year_offset) == Some(r),
    ensures
        r.valid(),
        r.day_number() == shift_target(d, set_day, day_offset, month_offset, year_offset),
{
    let n = shift_target(d, set_day, day_offset, month_offset, year_offset);
    assert(exists|x: CalendarDate| x.valid() && x.day_number() == n);
    let x = choose|x: CalendarDate| x.valid() && x.day_number() == n;
    assert(x == r);
}

/// Under zero month and year offsets the anchor month of a date is the
/// date's own month.
proof fn lemma_anchor_identity(y: int, m: int)
    requires
        0 <= m < 12,
    ensures
        anchor_year(y, m, 0, 0) == y,
        anchor_month(m, 0) == m,
{
    lemma_fundamental_div_mod_converse_div(m, 12, 0, m);
    lemma_fundamental_div_mod_converse_mod(m, 12, 0, m);
}

/// Round trip over day offsets: shifting a valid date by some days and then
/// by the opposite number of days returns to the starting date.
pub proof fn lemma_shift_days_round_trip(d: CalendarDate, day_offset: int, r: CalendarDate)
    requires
        d.valid(),
        spec_shift(d, None, day_offset, 0, 0) == Some(r),
    ensures
        spec_shift(r, None, -day_offset, 0, 0) == Some(d),
{
    lemma_anchor_identity(d.year as int, d.month as int);
    lemma_anchor_identity(r.year as int, r.month as int);
    lemma_shift_some_props(d, None, day_offset, 0, 0, r);
    assert(r.day_number() == d.day_number() + day_offset);
    assert(shift_target(r, None, -day_offset, 0, 0) == d.day_number());
    lemma_date_of_day_number_unique(d, d.day_number());
}

/// Round trip over month and year offsets: when the starting day of month
/// also exists in the anchor month the offsets land on, shifting by
/// (month_offset, year_offset) and then by the opposite offsets returns to
/// the starting date. When the day does not exist there it is clamped to
/// the end of that month, and the round trip may then not return.
pub proof fn lemma_shift_months_round_trip(
    d: CalendarDate,
    month_offset: int,
    year_offset: int,
    r: CalendarDate,
)
    requires
        d.valid(),
        d.day < days_in_month(
            anchor_year(d.year as int, d.month as int, month_offset, year_offset),
            anchor_month(d.month as int, month_offset),
        ),
        spec_shift(d, None, 0, month_offset, year_offset) == Some(r),
    ensures
        spec_shift(r, None, 0, -month_offset, -year_offset) == Some(d),
{
    let ay = anchor_year(d.year as int, d.month as int, month_offset, year_offset);
    let am = anchor_month(d.month as int, month_offset);
    let t = d.month as int + month_offset;
    lemma_mod_bound(t, 12);
    lemma_shift_some_props(d, None, 0, month_offset, year_offset, r);
    assert(r.day_number() == day_number_of(ay, am, d.day as int));
    lemma_day_number_of_injective(
        r.year as int,
        r.month as int,
        r.day as int,
        ay,
        am,
        d.day as int,
    );
    let q = t / 12;
    lemma_fundamental_div_mod(t, 12);
    lemma_fundamental_div_mod_converse_div(am - month_offset, 12, -q, d.month as int);
    lemma_fundamental_div_mod_converse_mod(am - month_offset, 12, -q, d.month as int);
    assert(anchor_month(r.month as int, -month_offset) == d.month as int);
    assert(anchor_year(r.year as int, r.month as int, -month_offset, -year_offset) == d.year as int);
    lemma_date_of_day_number_unique(d, shift_target(r, None, 0, -month_offset, -year_offset));
}

} // verus!
