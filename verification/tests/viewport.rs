use watchlist::app::{App, Data, Frame, Screen, DEFAULT_TAKE, FORM_FIELDS};
use watchlist::keybinds::Mode;
use watchlist::series::Series;

fn records(count: usize) -> Vec<Series> {
    let mut page = Vec::new();
    for i in 0..count {
        page.push(Series::new(format!("Series {}", i), None, None, None, None));
    }
    page
}

#[test]
fn a_new_viewport_shows_sixteen_records_from_the_start() {
    let data = Data::default(40);
    assert_eq!(DEFAULT_TAKE, 16);
    assert_eq!(data.take, 16);
    assert_eq!(data.take_backup, 16);
    assert_eq!(data.skip, 0);
    assert_eq!(data.hovered_series_idx, 0);
    assert_eq!(data.total_series, 40);
    assert!(data.available_series.is_empty());
    assert!(data.ignore_cached_series);
    assert!(!data.cache_valid());
    assert!(data.needs_fetch());
}

#[test]
fn set_take_banks_the_page_size_and_restore_take_brings_it_back() {
    let mut data = Data::default(40);
    data.set_take(100);
    assert_eq!(data.take, 100);
    assert_eq!(data.take_backup, 16);
    data.restore_take();
    assert_eq!(data.take, 16);
    assert_eq!(data.take_backup, 16);
}

#[test]
fn restore_take_without_set_take_keeps_the_page_size() {
    let mut data = Data::default(40);
    data.restore_take();
    assert_eq!(data.take, 16);
    assert_eq!(data.take_backup, 16);
}

#[test]
fn set_take_twice_banks_the_page_size_before_the_last() {
    let mut data = Data::default(40);
    data.set_take(100);
    data.set_take(7);
    assert_eq!(data.take, 7);
    assert_eq!(data.take_backup, 100);
    data.restore_take();
    assert_eq!(data.take, 100);
}

#[test]
fn set_take_leaves_the_rest_of_the_viewport_alone() {
    let mut data = Data::default(40);
    data.ensure_fresh(|_, _| records(5));
    data.hovered_series_idx = 3;
    data.skip = 2;
    data.set_take(4);
    assert_eq!(data.hovered_series_idx, 3);
    assert_eq!(data.skip, 2);
    assert_eq!(data.total_series, 40);
    assert_eq!(data.available_series.len(), 5);
    assert!(data.cache_valid());
}

#[test]
fn invalidate_twice_is_invalidate_once() {
    let mut once = Data::default(40);
    once.ensure_fresh(|_, _| records(5));
    once.hovered_series_idx = 2;
    let mut twice = Data::default(40);
    twice.ensure_fresh(|_, _| records(5));
    twice.hovered_series_idx = 2;
    assert!(once.cache_valid());

    once.invalidate();
    twice.invalidate();
    twice.invalidate();

    assert!(!once.cache_valid());
    assert_eq!(once.ignore_cached_series, twice.ignore_cached_series);
    assert_eq!(once.hovered_series_idx, twice.hovered_series_idx);
    assert_eq!(once.take, twice.take);
    assert_eq!(once.take_backup, twice.take_backup);
    assert_eq!(once.skip, twice.skip);
    assert_eq!(once.total_series, twice.total_series);
    assert_eq!(once.available_series.len(), twice.available_series.len());
    assert!(once.needs_fetch());
    assert!(twice.needs_fetch());
}

#[test]
fn the_cache_stays_invalid_until_the_page_is_fetched() {
    let mut data = Data::default(40);
    data.ensure_fresh(|_, _| records(5));
    data.invalidate();
    data.set_take(8);
    data.restore_take();
    data.set_total_series(41);
    assert!(!data.cache_valid());
    data.ensure_fresh(|_, _| records(6));
    assert!(data.cache_valid());
    assert_eq!(data.available_series.len(), 6);
}

#[test]
fn ensure_fresh_fetches_with_the_page_size_and_the_offset() {
    let mut data = Data::default(40);
    data.set_take(7);
    data.skip = 21;
    let mut asked = None;
    data.ensure_fresh(|take, skip| {
        asked = Some((take, skip));
        records(3)
    });
    assert_eq!(asked, Some((7, 21)));
    assert_eq!(data.available_series.len(), 3);
    assert_eq!(data.available_series[0].name, "Series 0");
    assert_eq!(data.available_series[2].name, "Series 2");
    assert!(data.cache_valid());
    assert!(!data.needs_fetch());
}

#[test]
fn ensure_fresh_does_not_fetch_a_page_that_is_fresh() {
    let mut data = Data::default(40);
    data.ensure_fresh(|_, _| records(3));
    let mut calls = 0;
    data.ensure_fresh(|_, _| {
        calls += 1;
        records(9)
    });
    assert_eq!(calls, 0);
    assert_eq!(data.available_series.len(), 3);
    assert!(data.cache_valid());
}

#[test]
fn ensure_fresh_fetches_again_while_the_page_is_empty() {
    let mut data = Data::default(40);
    data.ensure_fresh(|_, _| records(0));
    assert!(data.cache_valid());
    assert!(data.needs_fetch());
    let mut calls = 0;
    data.ensure_fresh(|_, _| {
        calls += 1;
        records(2)
    });
    assert_eq!(calls, 1);
    assert_eq!(data.available_series.len(), 2);
}

#[test]
fn ensure_fresh_keeps_the_highlight_inside_a_shorter_page() {
    let mut data = Data::default(40);
    data.ensure_fresh(|_, _| records(10));
    data.hovered_series_idx = 8;
    data.invalidate();
    data.ensure_fresh(|_, _| records(4));
    assert_eq!(data.hovered_series_idx, 3);
    data.invalidate();
    data.ensure_fresh(|_, _| records(12));
    assert_eq!(data.hovered_series_idx, 3);
    data.invalidate();
    data.ensure_fresh(|_, _| records(0));
    assert_eq!(data.hovered_series_idx, 0);
}

#[test]
fn set_total_series_records_the_count() {
    let mut data = Data::default(40);
    data.set_total_series(7);
    assert_eq!(data.total_series, 7);
    assert_eq!(data.take, 16);
    assert_eq!(data.skip, 0);
}

#[test]
fn a_new_session_lists_records_and_is_due_for_a_drawing() {
    let app = App::new(10);
    assert!(app.is_wf());
    assert!(app.needs_render());
    assert!(!app.should_exit);
    assert!(!app.should_show_help);
    assert!(app.should_show_help_msg);
    assert_eq!(app.screen, Screen::Listing);
    assert_eq!(app.mode, Mode::Navigation);
    assert_eq!(app.toast, None);
    assert!(app.create_data.is_empty());
    assert!(app.pending_form().is_none());
    assert_eq!(app.data.take, 16);
    assert_eq!(app.data.skip, 0);
    assert_eq!(app.data.total_series, 10);
    assert_eq!(app.hovered_index(), 0);
    assert_eq!(app.active_len(), 0);
    assert_eq!(app.frame(), Frame::Listing);
}

#[test]
fn is_wf_tells_a_broken_state() {
    let mut app = App::new(10);
    app.data.hovered_series_idx = 1;
    assert!(!app.is_wf());
    app.data.ensure_fresh(|_, _| records(2));
    assert!(app.is_wf());
    app.data.take = 0;
    assert!(!app.is_wf());
    app.data.take = 16;
    app.mode = Mode::Edit;
    assert!(!app.is_wf());
    app.mode = Mode::Navigation;
    app.screen = Screen::Creating;
    assert!(!app.is_wf());
    assert_eq!(FORM_FIELDS, 5);
}

#[test]
fn mark_rendered_clears_the_flag_and_the_message() {
    let mut app = App::new(10);
    app.toast = Some(String::from("Series created!"));
    assert!(app.needs_render());
    app.mark_rendered();
    assert!(!app.needs_render());
    assert_eq!(app.toast, None);
}

#[test]
fn a_message_waits_while_the_help_is_shown() {
    let mut app = App::new(10);
    app.toast = Some(String::from("no such table: series"));
    app.handle_line("h");
    assert_eq!(app.frame(), Frame::Help);
    app.mark_rendered();
    assert!(!app.needs_render());
    assert_eq!(app.toast, Some(String::from("no such table: series")));
    app.handle_line("h");
    assert_eq!(app.frame(), Frame::Listing);
    app.mark_rendered();
    assert_eq!(app.toast, None);
}

#[test]
fn install_page_replaces_the_page_and_makes_it_fresh() {
    let mut data = Data::default(40);
    data.install_page(records(4));
    assert_eq!(data.available_series.len(), 4);
    assert!(data.cache_valid());
    data.hovered_series_idx = 3;
    data.install_page(records(2));
    assert_eq!(data.hovered_series_idx, 1);
    assert_eq!(data.available_series[1].name, "Series 1");
    assert_eq!(data.take, 16);
    assert_eq!(data.skip, 0);
    assert_eq!(data.total_series, 40);
}

#[test]
fn session_fetches_its_page_from_the_store() {
    let mut app = App::new(40);
    app.data.skip = 3;
    let mut asked = None;
    app.ensure_fresh(|take, skip| {
        asked = Some((take, skip));
        Ok(records(5))
    });
    assert_eq!(asked, Some((16, 3)));
    assert_eq!(app.data.available_series.len(), 5);
    assert!(app.data.cache_valid());
    assert_eq!(app.toast, None);
    let mut calls = 0;
    app.ensure_fresh(|_, _| {
        calls += 1;
        Ok(records(9))
    });
    assert_eq!(calls, 0);
    assert_eq!(app.data.available_series.len(), 5);
}

#[test]
fn store_failure_on_fetch_is_shown_once_and_moves_nothing() {
    let mut app = App::new(40);
    app.ensure_fresh(|_, _| Ok(records(5)));
    app.handle_line("3j");
    app.handle_line("r");
    assert!(app.data.needs_fetch());
    app.ensure_fresh(|_, _| Err(String::from("unable to open database file")));
    assert_eq!(app.toast, Some(String::from("unable to open database file")));
    assert_eq!(app.data.hovered_series_idx, 3);
    assert_eq!(app.data.available_series.len(), 5);
    assert_eq!(app.data.skip, 0);
    assert_eq!(app.data.take, 16);
    assert!(!app.data.cache_valid());
    assert!(app.is_wf());
    app.mark_rendered();
    assert_eq!(app.toast, None);
    app.ensure_fresh(|_, _| Ok(records(2)));
    assert_eq!(app.data.available_series.len(), 2);
    assert_eq!(app.data.hovered_series_idx, 1);
    assert!(app.data.cache_valid());
}
