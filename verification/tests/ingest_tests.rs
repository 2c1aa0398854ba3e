//! Tests of the ingestion state machine: block recognition, recovery
//! from blank and malformed rows, the two-phase date window, and the
//! hard stop once the window is exhausted.

use activity_report::date::Date;
use activity_report::errors::ConfigError;
use activity_report::ingest::{run, SeriesWindow, WindowConfig};
use activity_report::rows::Cell;

fn txt(s: &str) -> Cell {
    Cell::Text(s.to_string())
}

fn header() -> Vec<Cell> {
    vec![txt("Date"), txt("Time"), txt("Mag. Value")]
}

fn blank() -> Vec<Cell> {
    vec![Cell::Empty, Cell::Empty, Cell::Empty]
}

/// A data row for day offset `day` (days since the epoch date) with the
/// given magnitude.
fn data(day: u32, magnitude: i64) -> Vec<Cell> {
    let serial = day as i64 + 2;
    let cell = Cell::DateTime { serial_days: serial, day_seconds: 3600 };
    let mut row = vec![cell.clone(), cell, Cell::Number(magnitude)];
    for _ in 0..6 {
        row.push(txt("N"));
    }
    row
}

fn config(skip_days: u32, window_days: u32) -> WindowConfig {
    WindowConfig::new(skip_days, window_days).unwrap()
}

fn bucket_len(w: &SeriesWindow, day: u32) -> Option<usize> {
    w.get_bucket(&Date { days: day }).map(|b| b.samples.len())
}

#[test]
fn window_filter_skips_then_retains() {
    // skip_days = 2 and window_days = 3 over one sample on each of the
    // days D0..D9 retains exactly the buckets {D2, D3, D4}.
    let mut rows = vec![header()];
    for day in 0..10u32 {
        rows.push(data(day, day as i64));
    }
    let w = run(config(2, 3), &rows);
    assert_eq!(w.day_count(), 3);
    for day in 0..10u32 {
        if (2..=4).contains(&day) {
            assert_eq!(bucket_len(&w, day), Some(1));
        } else {
            assert_eq!(bucket_len(&w, day), None);
        }
    }
}

#[test]
fn blank_then_header_reenters_parsing_without_losing_samples() {
    // A blank row followed by the same header row re-enters the parsing
    // mode; nothing collected before the reset is lost or duplicated.
    let rows = vec![
        header(),
        data(0, 10),
        data(0, 20),
        blank(),
        header(),
        data(0, 30),
    ];
    let w = run(config(0, 5), &rows);
    assert_eq!(w.day_count(), 1);
    assert_eq!(bucket_len(&w, 0), Some(3));
    let b = w.get_bucket(&Date { days: 0 }).unwrap();
    let mags: Vec<i64> = b.samples.iter().map(|s| s.magnitude).collect();
    assert_eq!(mags, vec![10, 20, 30]);
}

#[test]
fn data_after_blank_without_header_is_ignored() {
    let rows = vec![header(), data(0, 1), blank(), data(0, 2), data(0, 3)];
    let w = run(config(0, 5), &rows);
    assert_eq!(bucket_len(&w, 0), Some(1));
}

#[test]
fn unparseable_row_ends_the_block_without_a_blank() {
    // A data-shaped row with a bad flag cell ends the block on its own;
    // the rows after it are ignored until the next header.
    let mut bad = data(0, 99);
    bad[4] = txt("Maybe");
    let rows = vec![
        header(),
        data(0, 1),
        bad,
        data(0, 2),
        header(),
        data(0, 3),
    ];
    let w = run(config(0, 5), &rows);
    // The second sample is skipped (the machine is waiting), the header
    // row met while waiting reopens the block, and the third is kept.
    // A lone header inside a block would have closed it just the same.
    assert_eq!(bucket_len(&w, 0), Some(2));
    let b = w.get_bucket(&Date { days: 0 }).unwrap();
    let mags: Vec<i64> = b.samples.iter().map(|s| s.magnitude).collect();
    assert_eq!(mags, vec![1, 3]);
}

#[test]
fn header_inside_a_block_closes_it() {
    let rows = vec![header(), data(0, 1), header(), data(0, 2)];
    let w = run(config(0, 5), &rows);
    // The second header is malformed data while parsing: it closes the
    // block, and the machine waits; the following data row is ignored.
    assert_eq!(bucket_len(&w, 0), Some(1));
}

#[test]
fn rows_before_the_first_header_are_ignored() {
    let rows = vec![data(0, 1), txt_row(), data(0, 2), header(), data(0, 3)];
    let w = run(config(0, 5), &rows);
    assert_eq!(bucket_len(&w, 0), Some(1));
    let b = w.get_bucket(&Date { days: 0 }).unwrap();
    assert_eq!(b.samples[0].magnitude, 3);
}

fn txt_row() -> Vec<Cell> {
    vec![txt("noise"), Cell::Empty, Cell::Empty]
}

#[test]
fn window_exhaustion_stops_the_whole_run() {
    // With a one-day window, the first sample of the second retained day
    // exhausts the window, and no later row is examined — not even one
    // whose date would have fallen inside the window.
    let rows = vec![
        header(),
        data(0, 1),
        data(0, 2),
        data(1, 3),
        data(0, 4),
    ];
    let w = run(config(0, 1), &rows);
    assert_eq!(w.day_count(), 1);
    assert_eq!(bucket_len(&w, 0), Some(2));
}

#[test]
fn skipped_days_count_from_the_first_date_seen() {
    // The skip span is anchored at the first date encountered, even
    // though that date itself is discarded.
    let rows = vec![header(), data(5, 1), data(6, 2), data(7, 3), data(8, 4)];
    let w = run(config(2, 10), &rows);
    assert_eq!(w.day_count(), 2);
    assert_eq!(bucket_len(&w, 7), Some(1));
    assert_eq!(bucket_len(&w, 8), Some(1));
}

#[test]
fn dates_before_the_first_seen_date_are_discarded() {
    // A sample whose date precedes the first date seen always lies
    // within the skipped span.
    let rows = vec![header(), data(5, 1), data(3, 2), data(6, 3)];
    let w = run(config(0, 10), &rows);
    assert_eq!(w.day_count(), 2);
    assert_eq!(bucket_len(&w, 5), Some(1));
    assert_eq!(bucket_len(&w, 3), None);
    assert_eq!(bucket_len(&w, 6), Some(1));
}

#[test]
fn sorted_dates_are_ascending_whatever_the_arrival_order() {
    let rows = vec![header(), data(5, 1), data(7, 2), data(6, 3), data(7, 4)];
    let w = run(config(0, 3), &rows);
    let dates = w.sorted_dates();
    let days: Vec<u32> = dates.iter().map(|d| d.days).collect();
    assert_eq!(days, vec![5, 6, 7]);
    assert_eq!(bucket_len(&w, 7), Some(2));
}

#[test]
fn empty_input_yields_an_empty_window() {
    let rows: Vec<Vec<Cell>> = vec![];
    let w = run(config(2, 3), &rows);
    assert_eq!(w.day_count(), 0);
    assert!(w.sorted_dates().is_empty());
}

#[test]
fn zero_window_days_is_rejected() {
    assert_eq!(WindowConfig::new(3, 0), Err(ConfigError::EmptyWindow));
    assert!(WindowConfig::new(0, 1).is_ok());
}
