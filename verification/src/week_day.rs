//! Days of the week as a cyclic enumeration, Monday being ordinal 0.

use vstd::prelude::*;

verus! {

/// Enumeration of all weekdays.
#[derive(Clone, Copy, PartialEq, Eq, Structural, Debug)]
pub enum WeekDay {
    /// Monday.
    Monday,
    /// Tuesday.
    Tuesday,
    /// Wednesday.
    Wednesday,
    /// Thursday.
    Thursday,
    /// Friday.
    Friday,
    /// Saturday.
    Saturday,
    /// Sunday.
    Sunday,
}

impl WeekDay {
    /// The zero-based position of this weekday within the week, Monday being 0.
    pub open spec fn ord(self) -> int {
        match self {
            WeekDay::Monday => 0,
            WeekDay::Tuesday => 1,
            WeekDay::Wednesday => 2,
            WeekDay::Thursday => 3,
            WeekDay::Friday => 4,
            WeekDay::Saturday => 5,
            WeekDay::Sunday => 6,
        }
    }

    /// The zero-based index of this weekday, Monday being 0.
    pub fn index(&self) -> (r: i32)
        ensures
            r as int == self.ord(),
    {
        match self {
            WeekDay::Monday => 0,
            WeekDay::Tuesday => 1,
            WeekDay::Wednesday => 2,
            WeekDay::Thursday => 3,
            WeekDay::Friday => 4,
            WeekDay::Saturday => 5,
            WeekDay::Sunday => 6,
        }
    }

    /// The weekday at `index` steps after Monday, wrapping around the week;
    /// a negative index counts backwards from Monday.
    pub fn from_index(index: i32) -> (r: WeekDay)
        ensures
            r.ord() == index as int % 7,
    {
        let reduced = if index >= 0 {
            index % 7
        } else {
            ((index % 7) + 7) % 7
        };
        if reduced == 0 {
            WeekDay::Monday
        } else if reduced == 1 {
            WeekDay::Tuesday
        } else if reduced == 2 {
            WeekDay::Wednesday
        } else if reduced == 3 {
            WeekDay::Thursday
        } else if reduced == 4 {
            WeekDay::Friday
        } else if reduced == 5 {
            WeekDay::Saturday
        } else {
            WeekDay::Sunday
        }
    }
}

} // verus!
