//! A date-selection widget core: calendar arithmetic with leap years and
//! month-boundary carrying, range clamping, a three-level view-mode state
//! machine mapping input gestures to cursor movement, and grid layout
//! planning for the day, month and decade grids.

use vstd::prelude::*;

mod calculus;
mod date;
mod grid;
mod l16n;
mod month;
mod week_day;

pub use crate::calculus::anchor_month;
pub use crate::calculus::anchor_year;
pub use crate::calculus::date_from_day_and_offsets;
pub use crate::calculus::date_of_day_number;
pub use crate::calculus::lemma_date_of_day_number_unique;
pub use crate::calculus::lemma_shift_days_round_trip;
pub use crate::calculus::lemma_shift_months_round_trip;
pub use crate::calculus::lemma_shift_some_props;
pub use crate::calculus::shift_base_day;
pub use crate::calculus::shift_target;
pub use crate::calculus::spec_shift;
pub use crate::date::CalendarDate;
pub use crate::date::MAX_YEAR;
pub use crate::date::MIN_YEAR;
pub use crate::date::clamp_date;
pub use crate::date::day_number_of;
pub use crate::date::days_before_month;
pub use crate::date::days_before_year;
pub use crate::date::lemma_clamp_in_range_identity;
pub use crate::date::spec_clamp;
pub use crate::date::year_length;
pub use crate::grid::CellHighlight;
pub use crate::grid::DayCell;
pub use crate::grid::MonthCell;
pub use crate::grid::YearCell;
pub use crate::grid::iso_week_of;
pub use crate::grid::weekday_of;
pub use crate::l16n::EnglishLocale;
pub use crate::l16n::Locale;
pub use crate::month::Month;
pub use crate::month::days_in_month;
pub use crate::month::days_in_prev_month;
pub use crate::month::is_leap_year;
pub use crate::month::lemma_february_length;
pub use crate::week_day::WeekDay;

verus! {

/// Enumeration of all view modes supported by a [`CalendarView`].
#[derive(Clone, Copy, PartialEq, Eq, Structural, Debug)]
pub enum ViewMode {
    /// View of a specific month, allowing selection of individual days.
    Month,
    /// View of a specific year, allowing selection of individual months.
    Year,
    /// View of a specific decade, allowing selection of individual years.
    Decade,
}

impl ViewMode {
    /// The coarseness of this mode; finer modes rank lower.
    pub open spec fn rank(self) -> int {
        match self {
            ViewMode::Month => 0,
            ViewMode::Year => 1,
            ViewMode::Decade => 2,
        }
    }

    /// The coarseness of this mode as a number; finer modes rank lower.
    pub fn level(&self) -> (r: i32)
        ensures
            r as int == self.rank(),
    {
        match self {
            ViewMode::Month => 0,
            ViewMode::Year => 1,
            ViewMode::Decade => 2,
        }
    }

    /// The mode one step finer, used when drilling in.
    pub open spec fn finer(self) -> ViewMode {
        match self {
            ViewMode::Month => ViewMode::Month,
            ViewMode::Year => ViewMode::Month,
            ViewMode::Decade => ViewMode::Year,
        }
    }

    /// The mode one step coarser, used when drilling out.
    pub open spec fn coarser(self) -> ViewMode {
        match self {
            ViewMode::Month => ViewMode::Year,
            ViewMode::Year => ViewMode::Decade,
            ViewMode::Decade => ViewMode::Decade,
        }
    }
}

/// A discrete input gesture handled by a [`CalendarView`].
#[derive(Clone, Copy, PartialEq, Eq, Structural, Debug)]
pub enum Event {
    /// Move the cursor up one row of the active grid.
    Up,
    /// Move the cursor down one row of the active grid.
    Down,
    /// Move the cursor one cell to the left.
    Left,
    /// Move the cursor one cell to the right.
    Right,
    /// Move the cursor back by one unit of the next coarser granularity.
    PageUp,
    /// Move the cursor forward by one unit of the next coarser granularity.
    PageDown,
    /// Drill out to the next coarser view mode.
    Back,
    /// Drill in to the next finer view mode, or commit the cursor date at
    /// the finest allowed mode.
    Enter,
    /// A pointer press at a column and row relative to the widget's
    /// top-left corner.
    Click {
        /// The column of the pointer, 0 at the widget's left edge.
        x: usize,
        /// The row of the pointer, 0 at the widget's top edge.
        y: usize,
        /// Whether the press came from the primary (left) button.
        left_button: bool,
    },
}

/// The outcome of handling one event.
#[derive(Clone, Copy, PartialEq, Eq, Structural, Debug)]
pub enum EventOutcome {
    /// The event was not handled: the widget is disabled, the gesture is not
    /// bound, or a pointer press landed outside the grid.
    Ignored,
    /// The event was handled without moving the cursor or committing.
    Consumed,
    /// The event moved the cursor to the carried date.
    Selected(CalendarDate),
    /// The event committed the carried date at the finest allowed mode.
    Submitted(CalendarDate),
}

/// The truncating remainder, as machine division computes it: the result
/// carries the sign of the dividend.
pub open spec fn rem_trunc(a: int, b: int) -> int {
    if a >= 0 {
        a % b
    } else {
        -((-a) % b)
    }
}

/// View for selecting a date, with different view modes for day, month or
/// year based selection.
///
/// The widget owns a committed selection and a provisional cursor; events
/// move the cursor, drill between view modes, and commit the cursor at the
/// finest allowed mode.
#[derive(Clone, Copy, PartialEq, Eq, Structural, Debug)]
pub struct CalendarView {
    /// Whether the widget reacts to events.
    pub enabled: bool,
    /// Whether ISO week numbers are shown beside the day grid.
    pub show_iso_weeks: bool,
    /// The weekday shown in the first column of the day grid.
    pub week_start: WeekDay,
    /// The coarsest view mode the widget may occupy.
    pub highest_view_mode: ViewMode,
    /// The finest view mode the widget may occupy.
    pub lowest_view_mode: ViewMode,
    /// The active view mode.
    pub view_mode: ViewMode,
    /// The cursor: the provisional date highlighted during navigation.
    pub view_date: CalendarDate,
    /// The earliest selectable date, when bounded.
    pub earliest_date: Option<CalendarDate>,
    /// The latest selectable date, when bounded.
    pub latest_date: Option<CalendarDate>,
    /// The committed date, reported on submission.
    pub date: CalendarDate,
}

impl CalendarView {
    /// The widget invariant: all stored dates are valid, the finest allowed
    /// mode lies strictly below the coarsest, and the active mode lies
    /// between them.
    pub open spec fn wf(self) -> bool {
        &&& self.date.valid()
        &&& self.view_date.valid()
        &&& (self.earliest_date is Some ==> (self.earliest_date->Some_0).valid())
        &&& (self.latest_date is Some ==> (self.latest_date->Some_0).valid())
        &&& self.lowest_view_mode.rank() < self.highest_view_mode.rank()
        &&& self.lowest_view_mode.rank() <= self.view_mode.rank()
        &&& self.view_mode.rank() <= self.highest_view_mode.rank()
    }

    /// Creates a new `CalendarView` whose selection and cursor both start at
    /// `today`, in day-selection mode with the full mode range allowed.
    pub fn new(today: CalendarDate) -> (r: CalendarView)
        requires
            today.valid(),
        ensures
            r == (CalendarView {
                enabled: true,
                show_iso_weeks: false,
                week_start: WeekDay::Monday,
                highest_view_mode: ViewMode::Decade,
                lowest_view_mode: ViewMode::Month,
                view_mode: ViewMode::Month,
                view_date: today,
                earliest_date: None::<CalendarDate>,
                latest_date: None::<CalendarDate>,
                date: today,
            }),
            r.wf(),
    {
        CalendarView {
            enabled: true,
            show_iso_weeks: false,
            week_start: WeekDay::Monday,
            highest_view_mode: ViewMode::Decade,
            lowest_view_mode: ViewMode::Month,
            view_mode: ViewMode::Month,
            view_date: today,
            earliest_date: None,
            latest_date: None,
            date: today,
        }
    }

    /// Disables this view.
    ///
    /// A disabled view ignores all events.
    pub fn disable(&mut self)
        ensures
            *final(self) == (CalendarView { enabled: false, ..*old(self) }),
    {
        self.enabled = false;
    }

    /// Re-enables this view.
    pub fn enable(&mut self)
        ensures
            *final(self) == (CalendarView { enabled: true, ..*old(self) }),
    {
        self.enabled = true;
    }

    /// Enables or disables this view.
    pub fn set_enabled(&mut self, enabled: bool)
        ensures
            *final(self) == (CalendarView { enabled, ..*old(self) }),
    {
        self.enabled = enabled;
    }

    /// Returns `true` if this view is enabled.
    pub fn is_enabled(&self) -> (r: bool)
        ensures
            r == self.enabled,
    {
        self.enabled
    }

    /// Returns the currently selected (committed) date of this view.
    pub fn date(&self) -> (r: CalendarDate)
        ensures
            r == self.date,
    {
        self.date
    }

    /// Sets the currently selected date of this view, clamped into the
    /// configured range.
    pub fn set_selected_date(&mut self, date: CalendarDate)
        requires
            old(self).wf(),
            date.valid(),
        ensures
            *final(self) == (CalendarView {
                date: spec_clamp(date, old(self).earliest_date, old(self).latest_date),
                ..*old(self)
            }),
            final(self).wf(),
    {
        self.date = clamp_date(date, self.earliest_date, self.latest_date);
    }

    /// Sets the currently selected date of this view, clamped into the
    /// configured range.
    ///
    /// Chainable variant.
    pub fn selected_date(self, date: CalendarDate) -> (r: Self)
        requires
            self.wf(),
            date.valid(),
        ensures
            r == (CalendarView {
                date: spec_clamp(date, self.earliest_date, self.latest_date),
                ..self
            }),
            r.wf(),
    {
        let mut v = self;
        v.set_selected_date(date);
        v
    }

    /// Sets the cursor date of this view, clamped into the configured range.
    pub fn set_view_date(&mut self, date: CalendarDate)
        requires
            old(self).wf(),
            date.valid(),
        ensures
            *final(self) == (CalendarView {
                view_date: spec_clamp(date, old(self).earliest_date, old(self).latest_date),
                ..*old(self)
            }),
            final(self).wf(),
    {
        self.view_date = clamp_date(date, self.earliest_date, self.latest_date);
    }

    /// Sets the cursor date of this view, clamped into the configured range.
    ///
    /// Chainable variant.
    pub fn view_date(self, date: CalendarDate) -> (r: Self)
        requires
            self.wf(),
            date.valid(),
        ensures
            r == (CalendarView {
                view_date: spec_clamp(date, self.earliest_date, self.latest_date),
                ..self
            }),
            r.wf(),
    {
        let mut v = self;
        v.set_view_date(date);
        v
    }

    /// Sets the currently active view mode; a mode outside the allowed
    /// bounds is rejected and the prior mode retained.
    pub fn set_view_mode(&mut self, mode: ViewMode)
        requires
            old(self).wf(),
        ensures
            *final(self) == (CalendarView {
                view_mode: if old(self).lowest_view_mode.rank() <= mode.rank()
                    && mode.rank() <= old(self).highest_view_mode.rank() {
                    mode
                } else {
                    old(self).view_mode
                },
                ..*old(self)
            }),
            final(self).wf(),
    {
        if self.lowest_view_mode.level() <= mode.level() && mode.level()
            <= self.highest_view_mode.level() {
            self.view_mode = mode;
        }
    }

    /// Sets the currently active view mode; a mode outside the allowed
    /// bounds is rejected.
    ///
    /// Chainable variant.
    pub fn view_mode(self, mode: ViewMode) -> (r: Self)
        requires
            self.wf(),
        ensures
            r == (CalendarView {
                view_mode: if self.lowest_view_mode.rank() <= mode.rank() && mode.rank()
                    <= self.highest_view_mode.rank() {
                    mode
                } else {
                    self.view_mode
                },
                ..self
            }),
            r.wf(),
    {
        let mut v = self;
        v.set_view_mode(mode);
        v
    }

    /// Sets the finest view mode this calendar can be in; a mode not
    /// strictly finer than the coarsest allowed mode is rejected. The active
    /// mode is raised into the new bounds when needed.
    pub fn set_lowest_view_mode(&mut self, mode: ViewMode)
        requires
            old(self).wf(),
        ensures
            *final(self) == (if mode.rank() < old(self).highest_view_mode.rank() {
                CalendarView {
                    lowest_view_mode: mode,
                    view_mode: if old(self).view_mode.rank() < mode.rank() {
                        mode
                    } else {
                        old(self).view_mode
                    },
                    ..*old(self)
                }
            } else {
                *old(self)
            }),
            final(self).wf(),
    {
        if mode.level() < self.highest_view_mode.level() {
            self.lowest_view_mode = mode;
            if self.view_mode.level() < self.lowest_view_mode.level() {
                self.view_mode = self.lowest_view_mode;
            }
        }
    }

    /// Sets the finest view mode this calendar can be in.
    ///
    /// Chainable variant.
    pub fn lowest_view_mode(self, mode: ViewMode) -> (r: Self)
        requires
            self.wf(),
        ensures
            r == (if mode.rank() < self.highest_view_mode.rank() {
                CalendarView {
                    lowest_view_mode: mode,
                    view_mode: if self.view_mode.rank() < mode.rank() {
                        mode
                    } else {
                        self.view_mode
                    },
                    ..self
                }
            } else {
                self
            }),
            r.wf(),
    {
        let mut v = self;
        v.set_lowest_view_mode(mode);
        v
    }

    /// Sets the coarsest view mode this calendar can be in; a mode not
    /// strictly coarser than the finest allowed mode is rejected. The active
    /// mode is lowered into the new bounds when needed.
    pub fn set_highest_view_mode(&mut self, mode: ViewMode)
        requires
            old(self).wf(),
        ensures
            *final(self) == (if mode.rank() > old(self).lowest_view_mode.rank() {
                CalendarView {
                    highest_view_mode: mode,
                    view_mode: if old(self).view_mode.rank() > mode.rank() {
                        mode
                    } else {
                        old(self).view_mode
                    },
                    ..*old(self)
                }
            } else {
                *old(self)
            }),
            final(self).wf(),
    {
        if mode.level() > self.lowest_view_mode.level() {
            self.highest_view_mode = mode;
            if self.view_mode.level() > self.highest_view_mode.level() {
                self.view_mode = self.highest_view_mode;
            }
        }
    }

    /// Sets the coarsest view mode this calendar can be in.
    ///
    /// Chainable variant.
    pub fn highest_view_mode(self, mode: ViewMode) -> (r: Self)
        requires
            self.wf(),
        ensures
            r == (if mode.rank() > self.lowest_view_mode.rank() {
                CalendarView {
                    highest_view_mode: mode,
                    view_mode: if self.view_mode.rank() > mode.rank() {
                        mode
                    } else {
                        self.view_mode
                    },
                    ..self
                }
            } else {
                self
            }),
            r.wf(),
    {
        let mut v = self;
        v.set_highest_view_mode(mode);
        v
    }

    /// Sets and limits the earliest date selectable by this view. The
    /// committed date is raised to the new bound when it falls below it, and
    /// the cursor is re-clamped into the new range at once.
    pub fn set_earliest_date(&mut self, date: Option<CalendarDate>)
        requires
            old(self).wf(),
            date is Some ==> (date->Some_0).valid(),
        ensures
            *final(self) == (CalendarView {
                earliest_date: date,
                date: if date is Some && old(self).date.spec_lt(date->Some_0) {
                    date->Some_0
                } else {
                    old(self).date
                },
                view_date: spec_clamp(old(self).view_date, date, old(self).latest_date),
                ..*old(self)
            }),
            final(self).wf(),
    {
        self.earliest_date = date;
        if let Some(earliest) = &self.earliest_date {
            if self.date.lt(earliest) {
                self.date = *earliest;
            }
        }
        self.view_date = clamp_date(self.view_date, self.earliest_date, self.latest_date);
    }

    /// Sets and limits the earliest date selectable by this view.
    ///
    /// Chainable variant.
    pub fn earliest_date(self, date: Option<CalendarDate>) -> (r: Self)
        requires
            self.wf(),
            date is Some ==> (date->Some_0).valid(),
        ensures
            r == (CalendarView {
                earliest_date: date,
                date: if date is Some && self.date.spec_lt(date->Some_0) {
                    date->Some_0
                } else {
                    self.date
                },
                view_date: spec_clamp(self.view_date, date, self.latest_date),
                ..self
            }),
            r.wf(),
    {
        let mut v = self;
        v.set_earliest_date(date);
        v
    }

    /// Sets and limits the latest date selectable by this view. The
    /// committed date is lowered to the new bound when it lies above it, and
    /// the cursor is re-clamped into the new range at once.
    pub fn set_latest_date(&mut self, date: Option<CalendarDate>)
        requires
            old(self).wf(),
            date is Some ==> (date->Some_0).valid(),
        ensures
            *final(self) == (CalendarView {
                latest_date: date,
                date: if date is Some && (date->Some_0).spec_lt(old(self).date) {
                    date->Some_0
                } else {
                    old(self).date
                },
                view_date: spec_clamp(old(self).view_date, old(self).earliest_date, date),
                ..*old(self)
            }),
            final(self).wf(),
    {
        self.latest_date = date;
        if let Some(latest) = &self.latest_date {
            if latest.lt(&self.date) {
                self.date = *latest;
            }
        }
        self.view_date = clamp_date(self.view_date, self.earliest_date, self.latest_date);
    }

    /// Sets and limits the latest date selectable by this view.
    ///
    /// Chainable variant.
    pub fn latest_date(self, date: Option<CalendarDate>) -> (r: Self)
        requires
            self.wf(),
            date is Some ==> (date->Some_0).valid(),
        ensures
            r == (CalendarView {
                latest_date: date,
                date: if date is Some && (date->Some_0).spec_lt(self.date) {
                    date->Some_0
                } else {
                    self.date
                },
                view_date: spec_clamp(self.view_date, self.earliest_date, date),
                ..self
            }),
            r.wf(),
    {
        let mut v = self;
        v.set_latest_date(date);
        v
    }

    /// Changes the weekday shown in the first column of the day grid from
    /// the default of Monday.
    pub fn set_week_start(&mut self, day: WeekDay)
        ensures
            *final(self) == (CalendarView { week_start: day, ..*old(self) }),
    {
        self.week_start = day;
    }

    /// Changes the weekday shown in the first column of the day grid.
    ///
    /// Chainable variant.
    pub fn week_start(self, day: WeekDay) -> (r: Self)
        ensures
            r == (CalendarView { week_start: day, ..self }),
    {
        let mut v = self;
        v.set_week_start(day);
        v
    }

    /// Shows or hides ISO week numbers beside the day grid.
    ///
    /// ISO week numbers only make sense with a week start day of Monday.
    pub fn set_show_iso_weeks(&mut self, show: bool)
        ensures
            *final(self) == (CalendarView { show_iso_weeks: show, ..*old(self) }),
    {
        self.show_iso_weeks = show;
    }

    /// Shows or hides ISO week numbers beside the day grid.
    ///
    /// Chainable variant.
    pub fn show_iso_weeks(self, show: bool) -> (r: Self)
        ensures
            r == (CalendarView { show_iso_weeks: show, ..self }),
    {
        let mut v = self;
        v.set_show_iso_weeks(show);
        v
    }

    /// True when `date` lies within the configured range.
    pub open spec fn spec_date_available(self, date: CalendarDate) -> bool {
        &&& (self.earliest_date is Some ==> !date.spec_lt(self.earliest_date->Some_0))
        &&& (self.latest_date is Some ==> !(self.latest_date->Some_0).spec_lt(date))
    }

    /// True when `year` is not wholly outside the configured range.
    pub open spec fn spec_year_available(self, year: int) -> bool {
        &&& (self.earliest_date is Some ==> year >= self.earliest_date->Some_0.year)
        &&& (self.latest_date is Some ==> year <= self.latest_date->Some_0.year)
    }

    /// True when the zero-based `month` of `year` is not wholly outside the
    /// configured range.
    pub open spec fn spec_month_available(self, month: int, year: int) -> bool {
        &&& self.spec_year_available(year)
        &&& (self.earliest_date is Some ==> !(year == self.earliest_date->Some_0.year && month
            < self.earliest_date->Some_0.month))
        &&& (self.latest_date is Some ==> !(year == self.latest_date->Some_0.year && month
            > self.latest_date->Some_0.month))
    }

    /// True when `date` lies within the configured range, used for marking
    /// grid cells.
    pub fn date_available(&self, date: &CalendarDate) -> (r: bool)
        ensures
            r == self.spec_date_available(*date),
    {
        if let Some(earliest) = &self.earliest_date {
            if date.lt(earliest) {
                return false;
            }
        }
        if let Some(latest) = &self.latest_date {
            if latest.lt(date) {
                return false;
            }
        }
        true
    }

    /// True when the zero-based `month` of `year` is not wholly outside the
    /// configured range, used for marking grid cells.
    pub fn month_available(&self, month: u32, year: i32) -> (r: bool)
        ensures
            r == self.spec_month_available(month as int, year as int),
    {
        if !self.year_available(year) {
            return false;
        }
        if let Some(earliest) = &self.earliest_date {
            if year == earliest.year && (month as i64) < (earliest.month as i64) {
                return false;
            }
        }
        if let Some(latest) = &self.latest_date {
            if year == latest.year && (month as i64) > (latest.month as i64) {
                return false;
            }
        }
        true
    }

    /// True when `year` is not wholly outside the configured range, used for
    /// marking grid cells.
    pub fn year_available(&self, year: i32) -> (r: bool)
        ensures
            r == self.spec_year_available(year as int),
    {
        if let Some(earliest) = &self.earliest_date {
            if year < earliest.year {
                return false;
            }
        }
        if let Some(latest) = &self.latest_date {
            if year > latest.year {
                return false;
            }
        }
        true
    }
}


/// The (day, month, year) offset triple a directional gesture moves the
/// cursor by when the widget is in view mode `mode`.
pub open spec fn gesture_offsets(mode: ViewMode, event: Event) -> Option<(int, int, int)> {
    match event {
        Event::Up => Some(
            match mode {
                ViewMode::Month => (-7int, 0int, 0int),
                ViewMode::Year => (0int, -4int, 0int),
                ViewMode::Decade => (0int, 0int, -4int),
            },
        ),
        Event::Down => Some(
            match mode {
                ViewMode::Month => (7int, 0int, 0int),
                ViewMode::Year => (0int, 4int, 0int),
                ViewMode::Decade => (0int, 0int, 4int),
            },
        ),
        Event::Right => Some(
            match mode {
                ViewMode::Month => (1int, 0int, 0int),
                ViewMode::Year => (0int, 1int, 0int),
                ViewMode::Decade => (0int, 0int, 1int),
            },
        ),
        Event::Left => Some(
            match mode {
                ViewMode::Month => (-1int, 0int, 0int),
                ViewMode::Year => (0int, -1int, 0int),
                ViewMode::Decade => (0int, 0int, -1int),
            },
        ),
        Event::PageUp => Some(
            match mode {
                ViewMode::Month => (0int, -1int, 0int),
                ViewMode::Year => (0int, 0int, -1int),
                ViewMode::Decade => (0int, 0int, -10int),
            },
        ),
        Event::PageDown => Some(
            match mode {
                ViewMode::Month => (0int, 1int, 0int),
                ViewMode::Year => (0int, 0int, 1int),
                ViewMode::Decade => (0int, 0int, 10int),
            },
        ),
        _ => None,
    }
}

/// Opposite directional gestures move the cursor by exactly opposite
/// offset triples in every view mode, so a move and its opposite gesture
/// undo each other wherever the shift itself round-trips.
pub proof fn lemma_opposite_gesture_offsets(mode: ViewMode)
    ensures
        ({
            let u = gesture_offsets(mode, Event::Up)->Some_0;
            let d = gesture_offsets(mode, Event::Down)->Some_0;
            u.0 == -d.0 && u.1 == -d.1 && u.2 == -d.2
        }),
        ({
            let l = gesture_offsets(mode, Event::Left)->Some_0;
            let r = gesture_offsets(mode, Event::Right)->Some_0;
            l.0 == -r.0 && l.1 == -r.1 && l.2 == -r.2
        }),
        ({
            let u = gesture_offsets(mode, Event::PageUp)->Some_0;
            let d = gesture_offsets(mode, Event::PageDown)->Some_0;
            u.0 == -d.0 && u.1 == -d.1 && u.2 == -d.2
        }),
{
}

impl CalendarView {
    /// The submit transition and what it reports: at the finest allowed
    /// mode the cursor is committed, otherwise the widget drills in one
    /// step without touching the cursor.
    pub open spec fn spec_submit(self) -> (CalendarView, EventOutcome) {
        if self.view_mode == self.lowest_view_mode {
            (
                CalendarView { date: self.view_date, ..self },
                EventOutcome::Submitted(self.view_date),
            )
        } else {
            (CalendarView { view_mode: self.view_mode.finer(), ..self }, EventOutcome::Consumed)
        }
    }

    /// The widget after the cursor moved by the given offsets: the shifted
    /// cursor clamped into the range, or everything unchanged when the
    /// shift would leave the supported years.
    pub open spec fn spec_moved(
        self,
        day_offset: int,
        month_offset: int,
        year_offset: int,
    ) -> CalendarView {
        match spec_shift(self.view_date, None, day_offset, month_offset, year_offset) {
            Some(d) => CalendarView {
                view_date: spec_clamp(d, self.earliest_date, self.latest_date),
                ..self
            },
            None => self,
        }
    }

    /// A directional move step: the widget after it, and a cursor-change
    /// report when the cursor ended on another date.
    pub open spec fn spec_move_step(
        self,
        day_offset: int,
        month_offset: int,
        year_offset: int,
    ) -> (CalendarView, EventOutcome) {
        let moved = self.spec_moved(day_offset, month_offset, year_offset);
        (
            moved,
            if moved.view_date != self.view_date {
                EventOutcome::Selected(moved.view_date)
            } else {
                EventOutcome::Consumed
            },
        )
    }

    /// Where a pointer press at `(x, y)` lands in the active grid: the
    /// offsets from the cursor's cell to the pressed cell, or nothing when
    /// the press lies outside the cells or in a gutter.
    pub open spec fn spec_click_offsets(self, x: int, y: int) -> Option<(int, int, int)> {
        match self.view_mode {
            ViewMode::Decade => {
                let h = if self.show_iso_weeks {
                    2int
                } else {
                    0int
                };
                if y < 2 || y > 6 || y % 2 == 1 || x < h || x - h >= 20 || (x - h) % 5 == 4 {
                    None
                } else {
                    let cell = (x - h) / 5 + (y - 2) * 2;
                    let current = 1 + rem_trunc(self.view_date.year as int, 10);
                    Some((0int, 0int, cell - current))
                }
            },
            ViewMode::Year => {
                let h = if self.show_iso_weeks {
                    2int
                } else {
                    0int
                };
                if y < 2 || y > 6 || y % 2 == 1 || x < h || x - h >= 20 || (x - h) % 5 == 4 {
                    None
                } else {
                    let cell = 4 * ((y - 2) / 2) + (x - h) / 5;
                    Some((0int, cell - self.view_date.month, 0int))
                }
            },
            ViewMode::Month => {
                let h = if self.show_iso_weeks {
                    3int
                } else {
                    0int
                };
                if y < 2 || y >= 8 || x < h || x - h >= 21 || (x - h) % 3 == 2 {
                    None
                } else {
                    let cell = (x - h) / 3 + 7 * (y - 2);
                    let current = self.view_date.day + self.spec_day_grid_offset();
                    Some((cell - current, 0int, 0int))
                }
            },
        }
    }

    /// One step of the navigation state machine: the widget after handling
    /// `event`, and the outcome it reports. A disabled widget ignores every
    /// event.
    pub open spec fn spec_step(self, event: Event) -> (CalendarView, EventOutcome) {
        if !self.enabled {
            (self, EventOutcome::Ignored)
        } else {
            match event {
                Event::Back => (
                    if self.view_mode.rank() < self.highest_view_mode.rank() {
                        CalendarView { view_mode: self.view_mode.coarser(), ..self }
                    } else {
                        self
                    },
                    EventOutcome::Consumed,
                ),
                Event::Enter => self.spec_submit(),
                Event::Click { x, y, left_button } => match self.spec_click_offsets(
                    x as int,
                    y as int,
                ) {
                    None => (self, EventOutcome::Ignored),
                    Some(offs) => if offs.0 == 0 && offs.1 == 0 && offs.2 == 0 && left_button {
                        self.spec_submit()
                    } else {
                        self.spec_move_step(offs.0, offs.1, offs.2)
                    },
                },
                _ => match gesture_offsets(self.view_mode, event) {
                    Some(offs) => self.spec_move_step(offs.0, offs.1, offs.2),
                    None => (self, EventOutcome::Ignored),
                },
            }
        }
    }

    /// Handles a confirm gesture: at the finest allowed mode the cursor
    /// date becomes the committed selection and is reported; at a coarser
    /// mode the widget drills in one step.
    pub fn submit(&mut self) -> (r: EventOutcome)
        requires
            old(self).wf(),
        ensures
            final(self).wf(),
            *final(self) == old(self).spec_submit().0,
            r == old(self).spec_submit().1,
    {
        if self.view_mode == self.lowest_view_mode {
            self.date = self.view_date;
            EventOutcome::Submitted(self.date)
        } else {
            self.view_mode = match self.view_mode {
                ViewMode::Month | ViewMode::Year => ViewMode::Month,
                ViewMode::Decade => ViewMode::Year,
            };
            EventOutcome::Consumed
        }
    }

    /// Handles one input event: directional gestures move the cursor and
    /// report a changed cursor date, back and confirm gestures step between
    /// view modes or commit, and pointer presses act on the cell they hit.
    pub fn on_event(&mut self, event: Event) -> (r: EventOutcome)
        requires
            old(self).wf(),
        ensures
            final(self).wf(),
            *final(self) == old(self).spec_step(event).0,
            r == old(self).spec_step(event).1,
    {
        if !self.enabled {
            return EventOutcome::Ignored;
        }
        let last_view_date = self.view_date;
        let offsets: Option<(i32, i32, i32)> = match event {
            Event::Up => Some(
                match self.view_mode {
                    ViewMode::Month => (-7, 0, 0),
                    ViewMode::Year => (0, -4, 0),
                    ViewMode::Decade => (0, 0, -4),
                },
            ),
            Event::Down => Some(
                match self.view_mode {
                    ViewMode::Month => (7, 0, 0),
                    ViewMode::Year => (0, 4, 0),
                    ViewMode::Decade => (0, 0, 4),
                },
            ),
            Event::Right => Some(
                match self.view_mode {
                    ViewMode::Month => (1, 0, 0),
                    ViewMode::Year => (0, 1, 0),
                    ViewMode::Decade => (0, 0, 1),
                },
            ),
            Event::Left => Some(
                match self.view_mode {
                    ViewMode::Month => (-1, 0, 0),
                    ViewMode::Year => (0, -1, 0),
                    ViewMode::Decade => (0, 0, -1),
                },
            ),
            Event::PageUp => Some(
                match self.view_mode {
                    ViewMode::Month => (0, -1, 0),
                    ViewMode::Year => (0, 0, -1),
                    ViewMode::Decade => (0, 0, -10),
                },
            ),
            Event::PageDown => Some(
                match self.view_mode {
                    ViewMode::Month => (0, 1, 0),
                    ViewMode::Year => (0, 0, 1),
                    ViewMode::Decade => (0, 0, 10),
                },
            ),
            Event::Back => {
                if self.view_mode.level() < self.highest_view_mode.level() {
                    self.view_mode = match self.view_mode {
                        ViewMode::Month => ViewMode::Year,
                        ViewMode::Year => ViewMode::Decade,
                        ViewMode::Decade => ViewMode::Decade,
                    };
                }
                None
            },
            Event::Enter => {
                return self.submit();
            },
            Event::Click { x, y, left_button } => match self.view_mode {
                ViewMode::Decade => {
                    let h: usize = if self.show_iso_weeks {
                        2
                    } else {
                        0
                    };
                    if y < 2 || y > 6 || y % 2 == 1 || x < h || x - h >= 20 || (x - h) % 5 == 4 {
                        return EventOutcome::Ignored;
                    }
                    let cell: i32 = ((x - h) / 5 + (y - 2) * 2) as i32;
                    let current: i32 = 1 + self.view_date.year % 10;
                    let offset: i32 = cell - current;
                    if offset == 0 && left_button {
                        return self.submit();
                    }
                    Some((0, 0, offset))
                },
                ViewMode::Year => {
                    let h: usize = if self.show_iso_weeks {
                        2
                    } else {
                        0
                    };
                    if y < 2 || y > 6 || y % 2 == 1 || x < h || x - h >= 20 || (x - h) % 5 == 4 {
                        return EventOutcome::Ignored;
                    }
                    let cell: i32 = (4 * ((y - 2) / 2) + (x - h) / 5) as i32;
                    let offset: i32 = cell - self.view_date.month;
                    if offset == 0 && left_button {
                        return self.submit();
                    }
                    Some((0, offset, 0))
                },
                ViewMode::Month => {
                    let h: usize = if self.show_iso_weeks {
                        3
                    } else {
                        0
                    };
                    if y < 2 || y >= 8 || x < h || x - h >= 21 || (x - h) % 3 == 2 {
                        return EventOutcome::Ignored;
                    }
                    let cell: i32 = ((x - h) / 3 + 7 * (y - 2)) as i32;
                    let current: i32 = self.view_date.day + self.day_grid_offset();
                    let offset: i32 = cell - current;
                    if offset == 0 && left_button {
                        return self.submit();
                    }
                    Some((offset, 0, 0))
                },
            },
        };
        if let Some((day, month, year)) = offsets {
            if let Some(date) = date_from_day_and_offsets(&last_view_date, None, day, month, year) {
                proof {
                    lemma_shift_some_props(
                        last_view_date,
                        None,
                        day as int,
                        month as int,
                        year as int,
                        date,
                    );
                }
                self.set_view_date(date);
            }
        }
        if self.view_date != last_view_date {
            EventOutcome::Selected(self.view_date)
        } else {
            EventOutcome::Consumed
        }
    }
}


/// A cursor move keeps the widget well formed: a shifted cursor is a valid
/// date and clamping keeps it one.
pub proof fn lemma_moved_wf(s: CalendarView, day_offset: int, month_offset: int, year_offset: int)
    requires
        s.wf(),
    ensures
        s.spec_moved(day_offset, month_offset, year_offset).wf(),
{
    match spec_shift(s.view_date, None, day_offset, month_offset, year_offset) {
        Some(d) => {
            lemma_shift_some_props(s.view_date, None, day_offset, month_offset, year_offset, d);
        },
        None => {},
    }
}

/// Mode-bounds invariant: handling any event keeps the widget well formed;
/// in particular the active view mode stays between the allowed bounds and
/// all stored dates stay valid.
pub proof fn lemma_step_preserves_wf(s: CalendarView, event: Event)
    requires
        s.wf(),
    ensures
        s.spec_step(event).0.wf(),
{
    if s.enabled {
        match event {
            Event::Back => {},
            Event::Enter => {},
            Event::Click { x, y, left_button } => {
                match s.spec_click_offsets(x as int, y as int) {
                    Some(offs) => {
                        lemma_moved_wf(s, offs.0, offs.1, offs.2);
                    },
                    None => {},
                }
            },
            _ => {
                match gesture_offsets(s.view_mode, event) {
                    Some(offs) => {
                        lemma_moved_wf(s, offs.0, offs.1, offs.2);
                    },
                    None => {},
                }
            },
        }
    }
}

} // verus!
