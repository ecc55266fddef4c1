//! Tests of the grid layout planner: cell sets, highlight categories,
//! weekday alignment, ISO week numbers, pointer hits and the footprint.

use calendar_view::CalendarDate;
use calendar_view::CalendarView;
use calendar_view::CellHighlight;
use calendar_view::EnglishLocale;
use calendar_view::Event;
use calendar_view::EventOutcome;
use calendar_view::Locale;
use calendar_view::Month;
use calendar_view::ViewMode;
use calendar_view::WeekDay;

#[test]
fn day_grid_aligns_to_the_first_weekday() {
    // July 1969 begins on a Tuesday, so one June cell leads the grid.
    let view = CalendarView::new(CalendarDate::new(1969, 6, 19));
    let cells = view.draw_month();
    assert_eq!(cells.len(), 42);

    let first = cells[0].unwrap();
    assert_eq!(first.day, 30);
    assert_eq!(first.highlight, CellHighlight::Neighbor);
    assert_eq!((first.x, first.y), (0, 2));

    let second = cells[1].unwrap();
    assert_eq!(second.day, 1);
    assert_eq!(second.highlight, CellHighlight::Normal);

    // The cursor sits on July 20, one cell past the first, at index 20.
    let cursor = cells[20].unwrap();
    assert_eq!(cursor.day, 20);
    assert_eq!((cursor.x, cursor.y), (18, 4));

    // The grid runs into August at its tail.
    let last = cells[41].unwrap();
    assert_eq!(last.day, 10);
    assert_eq!(last.highlight, CellHighlight::Neighbor);
}

#[test]
fn day_grid_cursor_and_selection_differ() {
    let mut view = CalendarView::new(CalendarDate::new(1969, 6, 19));
    view.set_selected_date(CalendarDate::new(1969, 6, 3));
    let cells = view.draw_month();
    // Day 4 carries the selection, day 20 the cursor.
    assert_eq!(cells[4].unwrap().day, 4);
    assert_eq!(cells[4].unwrap().highlight, CellHighlight::Selected);
    assert_eq!(cells[20].unwrap().highlight, CellHighlight::Cursor);
    assert_eq!(cells[10].unwrap().highlight, CellHighlight::Normal);
}

#[test]
fn day_grid_marks_out_of_range_cells() {
    let mut view = CalendarView::new(CalendarDate::new(1969, 6, 19));
    view.set_earliest_date(Some(CalendarDate::new(1969, 6, 9)));
    let cells = view.draw_month();
    // July 10 is the earliest selectable day; July 9 is out of range.
    assert_eq!(cells[9].unwrap().day, 9);
    assert_eq!(cells[9].unwrap().highlight, CellHighlight::Unavailable);
    assert_eq!(cells[10].unwrap().day, 10);
    assert_eq!(cells[10].unwrap().highlight, CellHighlight::Normal);
    assert_eq!(cells[0].unwrap().highlight, CellHighlight::Unavailable);
}

#[test]
fn day_grid_reports_iso_weeks_per_row() {
    let mut view = CalendarView::new(CalendarDate::new(2020, 0, 14));
    view.set_show_iso_weeks(true);
    let cells = view.draw_month();

    // January 2020 begins on a Wednesday; the grid leads with December 30,
    // which already belongs to ISO week 1 of 2020.
    let first = cells[0].unwrap();
    assert_eq!(first.day, 30);
    assert_eq!(first.week, Some(1));
    // The gutter shifts day cells three columns right.
    assert_eq!((first.x, first.y), (3, 2));
    // Only row-leading cells carry a week number.
    assert_eq!(cells[1].unwrap().week, None);
    // The second row starts at January 6, ISO week 2.
    let second_row = cells[7].unwrap();
    assert_eq!(second_row.day, 6);
    assert_eq!(second_row.week, Some(2));
}

#[test]
fn day_grid_without_iso_weeks_reports_none() {
    let view = CalendarView::new(CalendarDate::new(2020, 0, 14));
    let cells = view.draw_month();
    assert_eq!(cells[0].unwrap().week, None);
    assert_eq!(cells[7].unwrap().week, None);
}

#[test]
fn month_grid_cells() {
    let mut view = CalendarView::new(CalendarDate::new(2024, 4, 9));
    view.set_selected_date(CalendarDate::new(2024, 1, 1));
    let cells = view.draw_year();
    assert_eq!(cells.len(), 12);
    assert_eq!(cells[4].month.index(), Month::May.index());
    assert_eq!(cells[4].highlight, CellHighlight::Cursor);
    assert_eq!((cells[4].x, cells[4].y), (0, 4));
    assert_eq!(cells[1].highlight, CellHighlight::Selected);
    assert_eq!(cells[7].highlight, CellHighlight::Normal);
}

#[test]
fn month_grid_marks_out_of_range_months() {
    let mut view = CalendarView::new(CalendarDate::new(2024, 4, 9));
    view.set_earliest_date(Some(CalendarDate::new(2024, 2, 0)));
    let cells = view.draw_year();
    assert_eq!(cells[0].highlight, CellHighlight::Unavailable);
    assert_eq!(cells[1].highlight, CellHighlight::Unavailable);
    assert_eq!(cells[2].highlight, CellHighlight::Normal);
}

#[test]
fn decade_grid_cells() {
    let view = CalendarView::new(CalendarDate::new(2024, 4, 9));
    let cells = view.draw_decade();
    assert_eq!(cells.len(), 12);
    // One out-of-decade neighbor on each side of 2020 to 2029.
    assert_eq!(cells[0].year, 2019);
    assert_eq!(cells[0].highlight, CellHighlight::Neighbor);
    assert_eq!(cells[1].year, 2020);
    assert_eq!(cells[5].year, 2024);
    assert_eq!(cells[5].highlight, CellHighlight::Cursor);
    assert_eq!((cells[5].x, cells[5].y), (5, 4));
    assert_eq!(cells[11].year, 2030);
    assert_eq!(cells[11].highlight, CellHighlight::Neighbor);
}

#[test]
fn decade_grid_marks_selected_neighbor_years() {
    let mut view = CalendarView::new(CalendarDate::new(2024, 4, 9));
    view.set_selected_date(CalendarDate::new(2019, 0, 0));
    let cells = view.draw_decade();
    assert_eq!(cells[0].year, 2019);
    assert_eq!(cells[0].highlight, CellHighlight::NeighborSelected);
}

#[test]
fn clicks_on_the_day_grid() {
    let mut view = CalendarView::new(CalendarDate::new(2024, 4, 9));
    // May 2024 begins on a Wednesday; the cursor on May 10 sits at cell 11,
    // column 4, row 1 of the day area.
    let outcome = view.on_event(Event::Click { x: 12, y: 3, left_button: true });
    assert_eq!(outcome, EventOutcome::Submitted(CalendarDate::new(2024, 4, 9)));

    // A gutter column between day cells reports no hit.
    let outcome = view.on_event(Event::Click { x: 2, y: 2, left_button: true });
    assert_eq!(outcome, EventOutcome::Ignored);
    // So do the header rows and anything below the grid.
    let outcome = view.on_event(Event::Click { x: 0, y: 0, left_button: true });
    assert_eq!(outcome, EventOutcome::Ignored);
    let outcome = view.on_event(Event::Click { x: 0, y: 9, left_button: true });
    assert_eq!(outcome, EventOutcome::Ignored);

    // The first cell of the grid is April 29.
    let outcome = view.on_event(Event::Click { x: 0, y: 2, left_button: true });
    assert_eq!(outcome, EventOutcome::Selected(CalendarDate::new(2024, 3, 28)));
    assert_eq!(view.view_date, CalendarDate::new(2024, 3, 28));
}

#[test]
fn clicks_on_the_month_grid() {
    let mut view = CalendarView::new(CalendarDate::new(2024, 4, 9));
    view.set_view_mode(ViewMode::Year);
    // May sits in the first column of the second row; a primary click on the
    // cursor's own cell confirms, which above the finest mode drills in.
    let outcome = view.on_event(Event::Click { x: 0, y: 4, left_button: true });
    assert_eq!(outcome, EventOutcome::Consumed);
    assert_eq!(view.view_mode, ViewMode::Month);
    // January moves the cursor four months back.
    view.set_view_mode(ViewMode::Year);
    let outcome = view.on_event(Event::Click { x: 0, y: 2, left_button: true });
    assert_eq!(outcome, EventOutcome::Selected(CalendarDate::new(2024, 0, 9)));
}

#[test]
fn clicks_on_the_decade_grid() {
    let mut view = CalendarView::new(CalendarDate::new(2024, 4, 9));
    view.set_view_mode(ViewMode::Decade);
    // 2024 sits in the second column of the second row; confirming there
    // drills in to the month grid of the year.
    let outcome = view.on_event(Event::Click { x: 5, y: 4, left_button: true });
    assert_eq!(outcome, EventOutcome::Consumed);
    assert_eq!(view.view_mode, ViewMode::Year);
    // The leading neighbor cell carries 2019.
    view.set_view_mode(ViewMode::Decade);
    let outcome = view.on_event(Event::Click { x: 0, y: 2, left_button: true });
    assert_eq!(outcome, EventOutcome::Selected(CalendarDate::new(2019, 4, 9)));
    // Odd rows between year rows report no hit.
    let outcome = view.on_event(Event::Click { x: 0, y: 3, left_button: true });
    assert_eq!(outcome, EventOutcome::Ignored);
}

#[test]
fn non_primary_click_on_the_cursor_cell_does_not_commit() {
    let mut view = CalendarView::new(CalendarDate::new(2024, 4, 9));
    let before = view.date();
    let outcome = view.on_event(Event::Click { x: 12, y: 3, left_button: false });
    // The cursor stays in place, so nothing is committed and no change is
    // reported.
    assert_eq!(outcome, EventOutcome::Consumed);
    assert_eq!(view.date(), before);
}

#[test]
fn footprint_grows_with_the_week_number_gutter() {
    let mut view = CalendarView::new(CalendarDate::new(2024, 4, 9));
    assert_eq!(view.required_size(), (20, 8));
    view.set_show_iso_weeks(true);
    assert_eq!(view.required_size(), (23, 8));
}

#[test]
fn week_day_row_follows_the_week_start() {
    let view = CalendarView::new(CalendarDate::new(2024, 4, 9));
    let row = view.week_day_row();
    assert_eq!(row.len(), 7);
    assert_eq!(row[0].index(), WeekDay::Monday.index());
    assert_eq!(row[6].index(), WeekDay::Sunday.index());

    let view = view.week_start(WeekDay::Sunday);
    let row = view.week_day_row();
    assert_eq!(row[0].index(), WeekDay::Sunday.index());
    assert_eq!(row[1].index(), WeekDay::Monday.index());
}

#[test]
fn english_locale_names() {
    assert_eq!(EnglishLocale::week_day(WeekDay::Thursday, true), "Thursday");
    assert_eq!(EnglishLocale::week_day(WeekDay::Thursday, false), "Th");
    assert_eq!(EnglishLocale::month(Month::December, true), "December");
    assert_eq!(EnglishLocale::month(Month::December, false), "Dec");
    assert_eq!(EnglishLocale::month(Month::May, false), "May");
}
