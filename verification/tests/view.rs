//! Tests of the navigation state machine: gestures, mode transitions,
//! range clamping and event reporting.

use calendar_view::CalendarDate;
use calendar_view::CalendarView;
use calendar_view::Event;
use calendar_view::EventOutcome;
use calendar_view::ViewMode;
use calendar_view::WeekDay;

#[test]
fn new_view_starts_at_today_in_day_mode() {
    let today = CalendarDate::new(2024, 4, 9);
    let view = CalendarView::new(today);
    assert!(view.is_enabled());
    assert_eq!(view.date(), today);
    assert_eq!(view.view_date, today);
    assert_eq!(view.view_mode, ViewMode::Month);
    assert_eq!(view.lowest_view_mode, ViewMode::Month);
    assert_eq!(view.highest_view_mode, ViewMode::Decade);
    assert_eq!(view.earliest_date, None);
    assert_eq!(view.latest_date, None);
}

#[test]
fn arrows_move_the_cursor_by_days() {
    // Cursor on 1969-07-20.
    let mut view = CalendarView::new(CalendarDate::new(1969, 6, 19));
    for _ in 0..4 {
        view.on_event(Event::Left);
    }
    assert_eq!(view.view_date, CalendarDate::new(1969, 6, 15));

    let mut view = CalendarView::new(CalendarDate::new(1969, 6, 19));
    for _ in 0..4 {
        view.on_event(Event::Right);
    }
    assert_eq!(view.view_date, CalendarDate::new(1969, 6, 23));

    let mut view = CalendarView::new(CalendarDate::new(1969, 6, 19));
    for _ in 0..21 {
        view.on_event(Event::Right);
    }
    // Day 20 + 21 crosses July's 31 days into August 10.
    assert_eq!(view.view_date, CalendarDate::new(1969, 7, 9));
}

#[test]
fn vertical_arrows_move_by_weeks_in_day_mode() {
    let mut view = CalendarView::new(CalendarDate::new(1969, 6, 19));
    view.on_event(Event::Up);
    assert_eq!(view.view_date, CalendarDate::new(1969, 6, 12));
    view.on_event(Event::Down);
    view.on_event(Event::Down);
    assert_eq!(view.view_date, CalendarDate::new(1969, 6, 26));
}

#[test]
fn page_down_clamps_to_target_month_length() {
    // Cursor on 2020-01-31; one month forward lands on leap February 29.
    let mut view = CalendarView::new(CalendarDate::new(2020, 0, 30));
    let outcome = view.on_event(Event::PageDown);
    assert_eq!(view.view_date, CalendarDate::new(2020, 1, 28));
    assert_eq!(outcome, EventOutcome::Selected(CalendarDate::new(2020, 1, 28)));
}

#[test]
fn selected_date_clamps_into_the_range() {
    let mut view = CalendarView::new(CalendarDate::new(2024, 4, 9));
    view.set_earliest_date(Some(CalendarDate::new(2020, 0, 0)));
    view.set_latest_date(Some(CalendarDate::new(2040, 11, 30)));
    view.set_selected_date(CalendarDate::new(2050, 0, 0));
    assert_eq!(view.date(), CalendarDate::new(2040, 11, 30));
    view.set_selected_date(CalendarDate::new(2019, 0, 0));
    assert_eq!(view.date(), CalendarDate::new(2020, 0, 0));
    view.set_selected_date(CalendarDate::new(2024, 4, 9));
    assert_eq!(view.date(), CalendarDate::new(2024, 4, 9));
}

#[test]
fn decade_navigation_clamps_to_latest_year() {
    let mut view = CalendarView::new(CalendarDate::new(2024, 4, 9));
    view.set_latest_date(Some(CalendarDate::new(2040, 11, 30)));
    view.set_view_mode(ViewMode::Decade);

    view.on_event(Event::Down);
    assert_eq!(view.view_date.year, 2028);
    view.on_event(Event::PageDown);
    assert_eq!(view.view_date.year, 2038);
    // Another page forward would land in 2048, past the latest bound.
    view.on_event(Event::PageDown);
    assert_eq!(view.view_date.year, 2040);
    assert_eq!(view.view_date, CalendarDate::new(2040, 11, 30));
}

#[test]
fn confirm_at_month_granularity_commits_the_cursor() {
    let mut view = CalendarView::new(CalendarDate::new(2024, 4, 9));
    view.set_lowest_view_mode(ViewMode::Year);
    assert_eq!(view.view_mode, ViewMode::Year);

    // The committed value keeps whatever day the cursor carries.
    let outcome = view.on_event(Event::Enter);
    assert_eq!(outcome, EventOutcome::Submitted(CalendarDate::new(2024, 4, 9)));
    assert_eq!(view.date(), CalendarDate::new(2024, 4, 9));
    assert_eq!(view.view_mode, ViewMode::Year);

    // Drilling out steps to the decade view; at the coarsest mode it is a
    // no-op.
    view.on_event(Event::Back);
    assert_eq!(view.view_mode, ViewMode::Decade);
    view.on_event(Event::Back);
    assert_eq!(view.view_mode, ViewMode::Decade);
}

#[test]
fn enter_drills_in_before_committing() {
    let mut view = CalendarView::new(CalendarDate::new(2024, 4, 9));
    view.set_view_mode(ViewMode::Decade);
    let outcome = view.on_event(Event::Enter);
    assert_eq!(outcome, EventOutcome::Consumed);
    assert_eq!(view.view_mode, ViewMode::Year);
    let outcome = view.on_event(Event::Enter);
    assert_eq!(outcome, EventOutcome::Consumed);
    assert_eq!(view.view_mode, ViewMode::Month);
    let outcome = view.on_event(Event::Enter);
    assert_eq!(outcome, EventOutcome::Submitted(CalendarDate::new(2024, 4, 9)));
}

#[test]
fn year_mode_moves_by_months() {
    let mut view = CalendarView::new(CalendarDate::new(2024, 4, 9));
    view.set_view_mode(ViewMode::Year);
    view.on_event(Event::Up);
    assert_eq!(view.view_date, CalendarDate::new(2024, 0, 9));
    view.on_event(Event::Right);
    assert_eq!(view.view_date, CalendarDate::new(2024, 1, 9));
    view.on_event(Event::PageUp);
    assert_eq!(view.view_date, CalendarDate::new(2023, 1, 9));
}

#[test]
fn disabled_view_ignores_events() {
    let mut view = CalendarView::new(CalendarDate::new(2024, 4, 9));
    view.disable();
    assert!(!view.is_enabled());
    let outcome = view.on_event(Event::Right);
    assert_eq!(outcome, EventOutcome::Ignored);
    assert_eq!(view.view_date, CalendarDate::new(2024, 4, 9));
    view.enable();
    assert!(view.is_enabled());
    let outcome = view.on_event(Event::Right);
    assert_eq!(outcome, EventOutcome::Selected(CalendarDate::new(2024, 4, 10)));
}

#[test]
fn view_mode_outside_bounds_is_rejected() {
    let mut view = CalendarView::new(CalendarDate::new(2024, 4, 9));
    view.set_highest_view_mode(ViewMode::Year);
    view.set_view_mode(ViewMode::Decade);
    assert_eq!(view.view_mode, ViewMode::Month);
    view.set_view_mode(ViewMode::Year);
    assert_eq!(view.view_mode, ViewMode::Year);
}

#[test]
fn invalid_mode_bounds_are_rejected() {
    let mut view = CalendarView::new(CalendarDate::new(2024, 4, 9));
    // The finest bound must stay strictly below the coarsest.
    view.set_lowest_view_mode(ViewMode::Decade);
    assert_eq!(view.lowest_view_mode, ViewMode::Month);
    // The coarsest bound must stay strictly above the finest.
    view.set_highest_view_mode(ViewMode::Month);
    assert_eq!(view.highest_view_mode, ViewMode::Decade);
}

#[test]
fn narrowing_bounds_drags_the_active_mode_along() {
    let mut view = CalendarView::new(CalendarDate::new(2024, 4, 9));
    view.set_view_mode(ViewMode::Decade);
    view.set_highest_view_mode(ViewMode::Year);
    assert_eq!(view.view_mode, ViewMode::Year);
    let mut view = CalendarView::new(CalendarDate::new(2024, 4, 9));
    view.set_lowest_view_mode(ViewMode::Year);
    assert_eq!(view.view_mode, ViewMode::Year);
}

#[test]
fn setting_earliest_reclamps_selection_and_cursor() {
    let mut view = CalendarView::new(CalendarDate::new(2019, 5, 10));
    view.set_earliest_date(Some(CalendarDate::new(2020, 0, 0)));
    assert_eq!(view.date(), CalendarDate::new(2020, 0, 0));
    // The cursor is repaired eagerly as well, not on the next navigation.
    assert_eq!(view.view_date, CalendarDate::new(2020, 0, 0));
    assert_eq!(view.earliest_date, Some(CalendarDate::new(2020, 0, 0)));
    // A cursor already inside the range stays put.
    view.set_view_date(CalendarDate::new(2024, 4, 9));
    view.set_earliest_date(Some(CalendarDate::new(2021, 0, 0)));
    assert_eq!(view.view_date, CalendarDate::new(2024, 4, 9));
}

#[test]
fn setting_latest_reclamps_selection_and_cursor() {
    let mut view = CalendarView::new(CalendarDate::new(2050, 5, 10));
    view.set_latest_date(Some(CalendarDate::new(2040, 11, 30)));
    assert_eq!(view.date(), CalendarDate::new(2040, 11, 30));
    // The cursor is repaired eagerly as well.
    assert_eq!(view.view_date, CalendarDate::new(2040, 11, 30));
    assert_eq!(view.latest_date, Some(CalendarDate::new(2040, 11, 30)));
    // A cursor already inside the range stays put.
    view.set_view_date(CalendarDate::new(2024, 4, 9));
    view.set_latest_date(Some(CalendarDate::new(2030, 0, 0)));
    assert_eq!(view.view_date, CalendarDate::new(2024, 4, 9));
}

#[test]
fn chainable_setters_match_their_counterparts() {
    let view = CalendarView::new(CalendarDate::new(2024, 4, 9))
        .selected_date(CalendarDate::new(2024, 0, 0))
        .view_date(CalendarDate::new(2024, 1, 1))
        .week_start(WeekDay::Sunday)
        .show_iso_weeks(true)
        .earliest_date(Some(CalendarDate::new(2020, 0, 0)))
        .latest_date(Some(CalendarDate::new(2040, 11, 30)))
        .lowest_view_mode(ViewMode::Year)
        .view_mode(ViewMode::Decade);
    assert_eq!(view.date(), CalendarDate::new(2024, 0, 0));
    assert_eq!(view.view_date, CalendarDate::new(2024, 1, 1));
    assert_eq!(view.week_start, WeekDay::Sunday);
    assert!(view.show_iso_weeks);
    assert_eq!(view.view_mode, ViewMode::Decade);
    assert_eq!(view.lowest_view_mode, ViewMode::Year);
}

#[test]
fn availability_against_the_range() {
    let mut view = CalendarView::new(CalendarDate::new(2024, 4, 9));
    view.set_earliest_date(Some(CalendarDate::new(2020, 2, 0)));
    view.set_latest_date(Some(CalendarDate::new(2040, 9, 30)));

    assert!(!view.year_available(2019));
    assert!(view.year_available(2020));
    assert!(view.year_available(2040));
    assert!(!view.year_available(2041));

    assert!(!view.month_available(1, 2020));
    assert!(view.month_available(2, 2020));
    assert!(view.month_available(9, 2040));
    assert!(!view.month_available(10, 2040));
    assert!(view.month_available(0, 2030));

    assert!(!view.date_available(&CalendarDate::new(2020, 1, 28)));
    assert!(view.date_available(&CalendarDate::new(2020, 2, 0)));
    assert!(view.date_available(&CalendarDate::new(2040, 9, 30)));
    assert!(!view.date_available(&CalendarDate::new(2040, 10, 0)));
}

#[test]
fn move_against_a_bound_reports_no_selection_change() {
    let mut view = CalendarView::new(CalendarDate::new(2020, 0, 0));
    view.set_earliest_date(Some(CalendarDate::new(2020, 0, 0)));
    view.set_view_date(CalendarDate::new(2020, 0, 0));
    // Moving left from the earliest date clamps back onto it: the cursor
    // did not change, so the event is consumed without a report.
    let outcome = view.on_event(Event::Left);
    assert_eq!(outcome, EventOutcome::Consumed);
    assert_eq!(view.view_date, CalendarDate::new(2020, 0, 0));
}
