use nana_ui_runtime::calendar_grid::calendar_grid_fits;
use nana_ui_runtime::template::calendar_month_label;
use nana_ui_runtime::calendar_grid::{
    build_calendar_grid, calendar_month_marks, clear_calendar_heatmap_hover, max_cell_level, resolved_heatmap_label,
    set_pointer_cell, CalendarPointerEvent,
};

#[test]
fn week_grouping_fills_complete_monday_weeks() {
    let grid = build_calendar_grid(&["2026-06-01", "2026-06-03"], 1).unwrap();
    assert_eq!(grid.week_count, 1);
    assert_eq!(grid.cells.len(), 7);
    assert_eq!(grid.cells[0].date, "2026-06-01");
    assert_eq!(grid.cells[0].week_start, "2026-06-01");
    assert_eq!(grid.cells[2].date, "2026-06-03");
    assert_eq!(grid.cells[0].source, Some(0));
    assert_eq!(grid.cells[1].source, None);
    assert_eq!(grid.cells[1].date, "2026-06-02");
    assert_eq!(grid.cells[2].source, Some(1));
    let marks = calendar_month_marks(&grid.cells, grid.first, grid.last);
    assert_eq!(marks.len(), 1);
    assert_eq!(calendar_month_label("{month}月", marks[0].year, marks[0].month), "6月");
    assert_eq!(marks[0].month, 6);
    assert_eq!(marks[0].year, 2026);
    assert_eq!(marks[0].key, "2026-06-01");

    let sunday = build_calendar_grid(&["2026-06-01", "2026-06-03"], 0).unwrap();
    assert_eq!(sunday.week_count, 1);
    assert_eq!(sunday.cells[0].date, "2026-05-31");
    assert_eq!(sunday.cells[1].date, "2026-06-01");

    let spanned = build_calendar_grid(&["2026-06-01", "2026-06-08"], 1).unwrap();
    assert_eq!(spanned.week_count, 2);
    assert_eq!(spanned.cells.len(), 14);
    assert_eq!(spanned.cells[7].week_start, "2026-06-08");
}

#[test]
fn unparsable_dates_are_skipped_and_empty_data_has_no_grid() {
    assert!(build_calendar_grid(&[], 1).is_none());
    assert!(build_calendar_grid(&["nope", "2026-02-30"], 1).is_none());
    let grid = build_calendar_grid(&["2026-13-01", "2026-06-05"], 1).unwrap();
    assert_eq!(grid.cells.len(), 7);
    assert_eq!(grid.cells[4].source, Some(1));
}

#[test]
fn the_last_datum_of_a_day_is_shown() {
    let grid = build_calendar_grid(&["2026-06-02", "2026-6-2", "2026-06-04"], 1).unwrap();
    assert_eq!(grid.cells[1].source, Some(1));
    assert_eq!(grid.cells[1].date, "2026-6-2");
    assert_eq!(grid.cells[3].source, Some(2));
}

#[test]
fn month_marks_follow_month_changes() {
    let grid = build_calendar_grid(&["2026-05-20", "2026-07-02"], 1).unwrap();
    let marks = calendar_month_marks(&grid.cells, grid.first, grid.last);
    let months: Vec<u8> = marks.iter().map(|mark| mark.month).collect();
    assert_eq!(months, vec![5, 6, 7]);
    assert_eq!(marks[0].week, 0);
    assert_eq!(marks[0].key, grid.cells[0].week_start);
}

#[test]
fn pointer_moves_enter_move_and_leave() {
    let mut active = None;
    assert_eq!(set_pointer_cell(&mut active, Some(3), 7), Some(CalendarPointerEvent::CellEnter(3)));
    assert_eq!(active, Some(3));
    assert_eq!(set_pointer_cell(&mut active, Some(3), 7), Some(CalendarPointerEvent::CellMove(3)));
    assert_eq!(set_pointer_cell(&mut active, Some(4), 7), Some(CalendarPointerEvent::CellEnter(4)));
    assert_eq!(set_pointer_cell(&mut active, None, 7), Some(CalendarPointerEvent::CellLeave));
    assert_eq!(active, None);
    assert_eq!(set_pointer_cell(&mut active, None, 7), None);
    assert_eq!(set_pointer_cell(&mut active, Some(9), 7), None);
    assert_eq!(active, Some(9));
}

#[test]
fn max_level_defaults_and_floors() {
    assert_eq!(max_cell_level(&[]), 4);
    assert_eq!(max_cell_level(&[0, 0]), 1);
    assert_eq!(max_cell_level(&[1, 3, 2]), 3);
}

#[test]
fn heatmap_label_prefers_active_title_then_label() {
    assert_eq!(resolved_heatmap_label(Some("2026-06-01: 2"), Some("Commits")), "2026-06-01: 2");
    assert_eq!(resolved_heatmap_label(None, Some("Commits")), "Commits");
    assert_eq!(resolved_heatmap_label(None, Some("")), "Calendar heatmap");
    assert_eq!(resolved_heatmap_label(None, None), "Calendar heatmap");
}

#[test]
fn clearing_hover_reports_each_heatmap_that_left() {
    let mut actives = vec![None, Some(3), None, Some(0)];
    assert_eq!(
        clear_calendar_heatmap_hover(&mut actives),
        vec![(1, CalendarPointerEvent::CellLeave), (3, CalendarPointerEvent::CellLeave)]
    );
    assert_eq!(actives, vec![None, None, None, None]);
    assert!(clear_calendar_heatmap_hover(&mut actives).is_empty());
    let mut none: Vec<Option<usize>> = Vec::new();
    assert!(clear_calendar_heatmap_hover(&mut none).is_empty());
}

#[test]
fn ordinary_date_sets_fit_the_grid() {
    assert!(calendar_grid_fits(&["2026-01-05", "2026-03-01"], 1));
    assert!(calendar_grid_fits(&[], 0));
    assert!(calendar_grid_fits(&["not a date"], 3));
}
