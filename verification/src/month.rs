//! Months of the proleptic Gregorian calendar, with their lengths.

use vstd::prelude::*;

verus! {

/// Enumeration of all months in a year.
#[derive(Clone, Copy, PartialEq, Eq, Structural, Debug)]
pub enum Month {
    /// The month of January.
    January,
    /// The month of February.
    February,
    /// The month of March.
    March,
    /// The month of April.
    April,
    /// The month of May.
    May,
    /// The month of June.
    June,
    /// The month of July.
    July,
    /// The month of August.
    August,
    /// The month of September.
    September,
    /// The month of October.
    October,
    /// The month of November.
    November,
    /// The month of December.
    December,
}

/// True when `year` is a leap year under the proleptic Gregorian rule.
pub open spec fn is_leap_year(year: int) -> bool {
    (year % 4 == 0 && year % 100 != 0) || year % 400 == 0
}

/// The number of days of the zero-based `month` of `year`: 28, 29, 30 or 31.
pub open spec fn days_in_month(year: int, month: int) -> int {
    if month == 1 {
        if is_leap_year(year) {
            29
        } else {
            28
        }
    } else if month == 3 || month == 5 || month == 8 || month == 10 {
        30
    } else {
        31
    }
}

/// The number of days of the month before the zero-based `month` of `year`;
/// for January that is December of the year before.
pub open spec fn days_in_prev_month(year: int, month: int) -> int {
    if month == 0 {
        days_in_month(year - 1, 11)
    } else {
        days_in_month(year, month - 1)
    }
}

impl Month {
    /// The zero-based position of this month within the year.
    pub open spec fn ord(self) -> int {
        match self {
            Month::January => 0,
            Month::February => 1,
            Month::March => 2,
            Month::April => 3,
            Month::May => 4,
            Month::June => 5,
            Month::July => 6,
            Month::August => 7,
            Month::September => 8,
            Month::October => 9,
            Month::November => 10,
            Month::December => 11,
        }
    }

    /// The zero-based index of this month, January being 0.
    pub fn index(&self) -> (r: i32)
        ensures
            r as int == self.ord(),
    {
        match self {
            Month::January => 0,
            Month::February => 1,
            Month::March => 2,
            Month::April => 3,
            Month::May => 4,
            Month::June => 5,
            Month::July => 6,
            Month::August => 7,
            Month::September => 8,
            Month::October => 9,
            Month::November => 10,
            Month::December => 11,
        }
    }

    /// The month at the zero-based `index` of the year, January being 0.
    pub open spec fn of_index(index: int) -> Month {
        if index == 0 {
            Month::January
        } else if index == 1 {
            Month::February
        } else if index == 2 {
            Month::March
        } else if index == 3 {
            Month::April
        } else if index == 4 {
            Month::May
        } else if index == 5 {
            Month::June
        } else if index == 6 {
            Month::July
        } else if index == 7 {
            Month::August
        } else if index == 8 {
            Month::September
        } else if index == 9 {
            Month::October
        } else if index == 10 {
            Month::November
        } else {
            Month::December
        }
    }

    /// The month at a zero-based index, January being 0.
    pub fn from_index(index: i32) -> (r: Month)
        requires
            0 <= index < 12,
        ensures
            r.ord() == index as int,
            r == Month::of_index(index as int),
    {
        if index == 0 {
            Month::January
        } else if index == 1 {
            Month::February
        } else if index == 2 {
            Month::March
        } else if index == 3 {
            Month::April
        } else if index == 4 {
            Month::May
        } else if index == 5 {
            Month::June
        } else if index == 6 {
            Month::July
        } else if index == 7 {
            Month::August
        } else if index == 8 {
            Month::September
        } else if index == 9 {
            Month::October
        } else if index == 10 {
            Month::November
        } else {
            Month::December
        }
    }

    /// The month before this one, wrapping from January to December.
    pub fn prev(&self) -> (r: Month)
        ensures
            r.ord() == (self.ord() + 11) % 12,
    {
        match self {
            Month::January => Month::December,
            Month::February => Month::January,
            Month::March => Month::February,
            Month::April => Month::March,
            Month::May => Month::April,
            Month::June => Month::May,
            Month::July => Month::June,
            Month::August => Month::July,
            Month::September => Month::August,
            Month::October => Month::September,
            Month::November => Month::October,
            Month::December => Month::November,
        }
    }

    /// The number of days of this month in `year`, following the proleptic
    /// Gregorian leap-year rule for February.
    pub fn number_of_days(&self, year: i32) -> (r: i32)
        ensures
            r as int == days_in_month(year as int, self.ord()),
    {
        match self {
            Month::February => {
                if (year % 4 == 0 && year % 100 != 0) || year % 400 == 0 {
                    29
                } else {
                    28
                }
            },
            Month::April | Month::June | Month::September | Month::November => 30,
            _ => 31,
        }
    }

    /// The number of days of the month before this one in `year`; for January
    /// that is December of `year - 1`.
    pub fn prev_number_of_days(&self, year: i32) -> (r: i32)
        requires
            year > i32::MIN,
        ensures
            r as int == days_in_prev_month(year as int, self.ord()),
    {
        match self {
            Month::January => self.prev().number_of_days(year - 1),
            _ => self.prev().number_of_days(year),
        }
    }
}


/// February has 29 days exactly in leap years: years divisible by 4 and not
/// by 100, or divisible by 400; in every other year it has 28.
pub proof fn lemma_february_length(year: int)
    ensures
        days_in_month(year, 1) == 29 <==> ((year % 4 == 0 && year % 100 != 0) || year % 400 == 0),
        days_in_month(year, 1) == 28 <==> !((year % 4 == 0 && year % 100 != 0) || year % 400 == 0),
{
}

} // verus!
