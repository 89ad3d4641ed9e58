use quackmire::app::{shift, App};
use quackmire::area::Area;
use quackmire::paginator::Paginator;
use quackmire::table::Batch;
use quackmire::custom_table::Table;
use quackmire::value::Value;
use ratatui::buffer::Buffer;
use ratatui::layout::Rect;
use ratatui::style::{Color, Style};

fn numbers(name: &str, from: i64, count: i64) -> Batch {
    Batch {
        headers: vec![name.to_string()],
        rows: (from..from + count).map(|i| vec![Value::Int(i)]).collect(),
    }
}

fn loaded(batches: Vec<Result<Batch, String>>) -> App {
    let mut app = App::new();
    assert!(app.create_table(batches).is_ok());
    app
}

#[test]
fn shift_saturates_at_both_ends() {
    assert_eq!(shift(0, 0), 0);
    assert_eq!(shift(5, 3), 8);
    assert_eq!(shift(5, -3), 2);
    assert_eq!(shift(5, -5), 0);
    assert_eq!(shift(5, -6), 0);
    assert_eq!(shift(0, isize::MIN), 0);
    assert_eq!(shift(usize::MAX, isize::MIN), usize::MAX - (isize::MAX as usize) - 1);
    assert_eq!(shift(usize::MAX - 1, 5), usize::MAX);
    assert_eq!(shift(1, isize::MAX), isize::MAX as usize + 1);
}

#[test]
fn new_app_shows_nothing() {
    let app = App::new();
    assert!(app.running);
    assert!(app.input.is_empty());
    assert!(app.pages.current.is_empty());
    assert!(app.pages.pending.is_empty());
    assert_eq!((app.table_state.offset_x, app.table_state.offset_y), (0, 0));
    assert!(app.error.is_none());
    assert!(!app.show_error_popup);
    assert!(!app.show_save_popup);
    assert!(app.save_popup.input.is_empty());
}

#[test]
fn negative_scrolls_from_origin_stay_at_origin() {
    let mut app = loaded(vec![Ok(numbers("n", 0, 10))]);
    for delta in [-1, -5, isize::MIN, -1] {
        assert!(app.scroll_vertical(delta).is_ok());
        app.scroll_horizontal(delta);
        assert_eq!((app.table_state.offset_x, app.table_state.offset_y), (0, 0));
    }
    let mut empty = App::new();
    assert!(empty.scroll_vertical(-3).is_ok());
    empty.scroll_horizontal(-3);
    assert_eq!((empty.table_state.offset_x, empty.table_state.offset_y), (0, 0));
}

#[test]
fn horizontal_scroll_moves_columns_only() {
    let mut app = loaded(vec![Ok(numbers("n", 0, 3)), Ok(numbers("m", 3, 3))]);
    app.scroll_horizontal(4);
    assert_eq!((app.table_state.offset_x, app.table_state.offset_y), (4, 0));
    app.scroll_horizontal(-1);
    assert_eq!(app.table_state.offset_x, 3);
    app.scroll_horizontal(isize::MAX);
    app.scroll_horizontal(isize::MAX);
    app.scroll_horizontal(isize::MAX);
    assert_eq!(app.table_state.offset_x, usize::MAX);
    assert_eq!(app.pages.pending.len(), 1);
    assert_eq!(app.pages.current.headers, vec!["n"]);
}

#[test]
fn scroll_in_a_single_batch_of_a_hundred_rows() {
    let mut app = loaded(vec![Ok(numbers("n", 0, 100))]);
    assert!(app.scroll_vertical(20).is_ok());
    assert_eq!(app.table_state.offset_y, 20);
    assert!(app.scroll_vertical(71).is_ok());
    assert_eq!(app.table_state.offset_y, 91);
    let mut buf = Buffer::empty(Rect::new(0, 0, 4, 10));
    app.render(Area::new(0, 0, 4, 10), &mut buf);
    assert_eq!(buf[(0u16, 1u16)].symbol(), "9");
    assert_eq!(buf[(1u16, 1u16)].symbol(), "1");
    assert_eq!(buf[(0u16, 9u16)].symbol(), "9");
    assert_eq!(buf[(1u16, 9u16)].symbol(), "9");
    assert!(app.scroll_vertical(20).is_ok());
    assert_eq!(app.table_state.offset_y, 99);
    assert!(app.scroll_vertical(1).is_ok());
    assert_eq!(app.table_state.offset_y, 99);
    assert!(app.scroll_vertical(isize::MAX).is_ok());
    assert_eq!(app.table_state.offset_y, 99);
}

#[test]
fn scroll_past_the_end_takes_the_next_batch() {
    let mut app = loaded(vec![Ok(numbers("first", 0, 5)), Ok(numbers("second", 5, 7))]);
    app.scroll_horizontal(1);
    assert_eq!(app.pages.current.rows.len(), 5);
    assert!(app.scroll_vertical(10).is_ok());
    assert_eq!(app.pages.current.headers, vec!["second"]);
    assert_eq!(app.pages.current.rows.len(), 7);
    assert_eq!(app.pages.current.rows[0], vec!["5"]);
    assert_eq!(app.table_state.offset_y, 0);
    assert_eq!(app.table_state.offset_x, 1);
    assert!(app.pages.pending.is_empty());
}

#[test]
fn scroll_to_exactly_the_row_count_takes_the_next_batch() {
    let mut app = loaded(vec![Ok(numbers("first", 0, 5)), Ok(numbers("second", 5, 2))]);
    assert!(app.scroll_vertical(4).is_ok());
    assert_eq!(app.table_state.offset_y, 4);
    assert_eq!(app.pages.current.headers, vec!["first"]);
    assert!(app.scroll_vertical(1).is_ok());
    assert_eq!(app.table_state.offset_y, 0);
    assert_eq!(app.pages.current.headers, vec!["second"]);
}

#[test]
fn after_the_last_batch_scrolling_stops_at_the_last_row() {
    let mut app = loaded(vec![Ok(numbers("first", 0, 5)), Ok(numbers("second", 5, 3))]);
    assert!(app.scroll_vertical(5).is_ok());
    assert!(app.scroll_vertical(8).is_ok());
    assert_eq!(app.table_state.offset_y, 2);
    assert_eq!(app.pages.current.headers, vec!["second"]);
    assert!(app.scroll_vertical(8).is_ok());
    assert_eq!(app.table_state.offset_y, 2);
    assert_eq!(app.pages.current.rows.len(), 3);
}

#[test]
fn empty_result_is_an_empty_grid() {
    let mut app = loaded(vec![Ok(numbers("old", 0, 5))]);
    app.scroll_horizontal(2);
    assert!(app.scroll_vertical(3).is_ok());
    assert!(app.create_table(vec![]).is_ok());
    assert!(app.pages.current.is_empty());
    assert_eq!((app.table_state.offset_x, app.table_state.offset_y), (0, 0));
    assert!(app.scroll_vertical(4).is_ok());
    assert_eq!(app.table_state.offset_y, 0);
}

#[test]
fn failed_batch_is_reported_and_the_grid_stays() {
    let mut app = loaded(vec![
        Ok(numbers("first", 0, 5)),
        Err("broken chunk".to_string()),
        Ok(numbers("third", 9, 1)),
    ]);
    assert!(app.scroll_vertical(2).is_ok());
    let failed = app.scroll_vertical(9);
    assert_eq!(failed.unwrap_err().message, "broken chunk");
    assert_eq!(app.pages.current.headers, vec!["first"]);
    assert_eq!(app.table_state.offset_y, 2);
    assert_eq!(app.pages.pending.len(), 1);
    assert!(app.scroll_vertical(9).is_ok());
    assert_eq!(app.pages.current.headers, vec!["third"]);
    assert_eq!(app.table_state.offset_y, 0);
}

#[test]
fn failed_first_batch_shows_the_empty_grid() {
    let mut app = loaded(vec![Ok(numbers("old", 0, 5))]);
    let failed = app.create_table(vec![Err("no data".to_string()), Ok(numbers("n", 0, 1))]);
    assert_eq!(failed.unwrap_err().message, "no data");
    assert!(app.pages.current.is_empty());
    assert_eq!(app.pages.pending.len(), 1);
}

#[test]
fn advance_on_a_paginator() {
    let styled = Table::default().style(Style::default().fg(Color::Cyan));
    let mut pages = Paginator::new(styled, vec![Ok(numbers("a", 0, 2)), Err("x".to_string())]);
    assert!(pages.has_next());
    assert_eq!(pages.advance().unwrap(), true);
    assert_eq!(pages.current.headers, vec!["a"]);
    assert_eq!(pages.current.style, Style::default().fg(Color::Cyan));
    assert_eq!(pages.advance().unwrap_err().message, "x");
    assert_eq!(pages.current.headers, vec!["a"]);
    assert!(!pages.has_next());
    assert_eq!(pages.advance().unwrap(), false);
    assert_eq!(pages.advance().unwrap(), false);
    assert_eq!(pages.current.rows.len(), 2);
}

#[test]
fn failed_query_opens_the_error_dialog() {
    let mut app = loaded(vec![Ok(numbers("first", 0, 5)), Ok(numbers("second", 5, 3))]);
    app.scroll_horizontal(1);
    assert!(app.scroll_vertical(2).is_ok());
    app.query_failed("syntax error");
    assert_eq!(app.error.as_deref(), Some("Error: syntax error"));
    assert!(app.show_error_popup);
    assert!(app.pages.pending.is_empty());
    assert!(app.pages.current.is_empty());
    assert_eq!((app.table_state.offset_x, app.table_state.offset_y), (0, 0));
    app.save_failed("disk full");
    assert_eq!(app.error.as_deref(), Some("Error saving file: disk full"));
    assert!(!app.show_error_popup);
}

#[test]
fn quit_and_toggles() {
    let mut app = App::new();
    app.tick();
    app.toggle_error_popup();
    assert!(app.show_error_popup);
    app.toggle_error_popup();
    assert!(!app.show_error_popup);
    app.toggle_save_popup();
    assert!(app.show_save_popup);
    app.quit();
    assert!(!app.running);
    assert!(app.show_save_popup);
}
