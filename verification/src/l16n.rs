//! Localization of month and weekday names, pluggable per language.

use vstd::prelude::*;

use crate::month::Month;
use crate::week_day::WeekDay;

verus! {

/// The localized name of `day`, long (`Thursday`) or short (`Th`).
pub open spec fn spec_english_week_day(day: WeekDay, long_text: bool) -> Seq<char> {
    if long_text {
        match day {
            WeekDay::Monday => "Monday"@,
            WeekDay::Tuesday => "Tuesday"@,
            WeekDay::Wednesday => "Wednesday"@,
            WeekDay::Thursday => "Thursday"@,
            WeekDay::Friday => "Friday"@,
            WeekDay::Saturday => "Saturday"@,
            WeekDay::Sunday => "Sunday"@,
        }
    } else {
        match day {
            WeekDay::Monday => "Mo"@,
            WeekDay::Tuesday => "Tu"@,
            WeekDay::Wednesday => "We"@,
            WeekDay::Thursday => "Th"@,
            WeekDay::Friday => "Fr"@,
            WeekDay::Saturday => "Sa"@,
            WeekDay::Sunday => "Su"@,
        }
    }
}

/// The localized name of `month`, long (`December`) or short (`Dec`).
pub open spec fn spec_english_month(month: Month, long_text: bool) -> Seq<char> {
    if long_text {
        match month {
            Month::January => "January"@,
            Month::February => "February"@,
            Month::March => "March"@,
            Month::April => "April"@,
            Month::May => "May"@,
            Month::June => "June"@,
            Month::July => "July"@,
            Month::August => "August"@,
            Month::September => "September"@,
            Month::October => "October"@,
            Month::November => "November"@,
            Month::December => "December"@,
        }
    } else {
        match month {
            Month::January => "Jan"@,
            Month::February => "Feb"@,
            Month::March => "Mar"@,
            Month::April => "Apr"@,
            Month::May => "May"@,
            Month::June => "Jun"@,
            Month::July => "Jul"@,
            Month::August => "Aug"@,
            Month::September => "Sep"@,
            Month::October => "Oct"@,
            Month::November => "Nov"@,
            Month::December => "Dec"@,
        }
    }
}

/// Trait for localization of a [`CalendarView`](crate::CalendarView): a
/// pure, total lookup of display names for months and weekdays.
pub trait Locale {
    /// Returns the localized string for a specific [`WeekDay`].
    ///
    /// Both short (`Th`) and long (`Thursday`) translations are supported.
    fn week_day(day: WeekDay, long_text: bool) -> &'static str;

    /// Returns the localized string for a specific [`Month`].
    ///
    /// Both short (`Dec`) and long (`December`) translations are supported.
    fn month(month: Month, long_text: bool) -> &'static str;
}

/// English locale for a [`CalendarView`](crate::CalendarView).
pub struct EnglishLocale;

impl Locale for EnglishLocale {
    fn week_day(day: WeekDay, long_text: bool) -> (r: &'static str)
        ensures
            r@ == spec_english_week_day(day, long_text),
    {
        if long_text {
            match day {
                WeekDay::Monday => "Monday",
                WeekDay::Tuesday => "Tuesday",
                WeekDay::Wednesday => "Wednesday",
                WeekDay::Thursday => "Thursday",
                WeekDay::Friday => "Friday",
                WeekDay::Saturday => "Saturday",
                WeekDay::Sunday => "Sunday",
            }
        } else {
            match day {
                WeekDay::Monday => "Mo",
                WeekDay::Tuesday => "Tu",
                WeekDay::Wednesday => "We",
                WeekDay::Thursday => "Th",
                WeekDay::Friday => "Fr",
                WeekDay::Saturday => "Sa",
                WeekDay::Sunday => "Su",
            }
        }
    }

    fn month(month: Month, long_text: bool) -> (r: &'static str)
        ensures
            r@ == spec_english_month(month, long_text),
    {
        if long_text {
            match month {
                Month::January => "January",
                Month::February => "February",
                Month::March => "March",
                Month::April => "April",
                Month::May => "May",
                Month::June => "June",
                Month::July => "July",
                Month::August => "August",
                Month::September => "September",
                Month::October => "October",
                Month::November => "November",
                Month::December => "December",
            }
        } else {
            match month {
                Month::January => "Jan",
                Month::February => "Feb",
                Month::March => "Mar",
                Month::April => "Apr",
                Month::May => "May",
                Month::June => "Jun",
                Month::July => "Jul",
                Month::August => "Aug",
                Month::September => "Sep",
                Month::October => "Oct",
                Month::November => "Nov",
                Month::December => "Dec",
            }
        }
    }
}

} // verus!
