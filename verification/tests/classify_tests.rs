//! Tests of the row classifier: the blank, header, data and unparseable
//! shapes, and the cell decoders behind them.

use activity_report::rows::{classify_row, Cell, RowKind};

fn txt(s: &str) -> Cell {
    Cell::Text(s.to_string())
}

fn serial_cell(serial: f64) -> Cell {
    Cell::DateTime {
        serial_days: serial.trunc() as i64,
        day_seconds: (serial.fract() * 86400.0).round() as u32,
    }
}

fn data_row(serial: f64, magnitude: i64, flags: [&str; 6]) -> Vec<Cell> {
    let mut row = vec![serial_cell(serial), serial_cell(serial), Cell::Number(magnitude)];
    for f in flags {
        row.push(txt(f));
    }
    row
}

fn good_row(serial: f64, magnitude: i64) -> Vec<Cell> {
    data_row(serial, magnitude, ["Y", "N", "N", "Y", "N", "N"])
}

#[test]
fn empty_row_is_blank() {
    assert_eq!(classify_row(&vec![]), RowKind::Blank);
}

#[test]
fn all_empty_cells_are_blank() {
    let row = vec![Cell::Empty, Cell::Empty, Cell::Empty];
    assert_eq!(classify_row(&row), RowKind::Blank);
}

#[test]
fn exact_headings_make_a_header() {
    let row = vec![txt("Date"), txt("Time"), txt("Mag. Value")];
    assert_eq!(classify_row(&row), RowKind::Header);
}

#[test]
fn header_ignores_trailing_cells() {
    let row = vec![txt("Date"), txt("Time"), txt("Mag. Value"), txt("extra"), Cell::Number(3)];
    assert_eq!(classify_row(&row), RowKind::Header);
}

#[test]
fn header_match_is_case_sensitive() {
    let row = vec![txt("date"), txt("Time"), txt("Mag. Value")];
    assert_eq!(classify_row(&row), RowKind::Unparseable);
}

#[test]
fn header_match_does_not_trim() {
    let row = vec![txt("Date "), txt("Time"), txt("Mag. Value")];
    assert_eq!(classify_row(&row), RowKind::Unparseable);
}

#[test]
fn short_header_is_not_a_header() {
    let row = vec![txt("Date"), txt("Time")];
    assert_eq!(classify_row(&row), RowKind::Unparseable);
}

#[test]
fn well_formed_data_row_parses() {
    let row = good_row(44927.5, 123);
    match classify_row(&row) {
        RowKind::Data(s) => {
            assert_eq!(s.date.days, 44925);
            assert_eq!(s.time.seconds, 43200);
            assert_eq!(s.magnitude, 123);
            assert!(s.vigorous);
            assert!(!s.moderate);
            assert!(!s.low);
            assert!(s.sedentary);
            assert!(!s.con_vigorous);
            assert!(!s.con_moderate);
        }
        other => panic!("expected a data row, got {:?}", other),
    }
}

#[test]
fn negative_sentinel_magnitude_parses() {
    let row = good_row(44927.0, -1);
    match classify_row(&row) {
        RowKind::Data(s) => assert_eq!(s.magnitude, -1),
        other => panic!("expected a data row, got {:?}", other),
    }
}

#[test]
fn maybe_flag_cell_is_unparseable() {
    // A data-shaped row whose flag cell holds something other than the
    // "Y"/"N" literals does not fit the data shape.
    let row = data_row(44927.5, 123, ["Y", "Maybe", "N", "Y", "N", "N"]);
    assert_eq!(classify_row(&row), RowKind::Unparseable);
}

#[test]
fn blank_flag_cell_is_unparseable() {
    let mut row = good_row(44927.5, 123);
    row[5] = Cell::Empty;
    assert_eq!(classify_row(&row), RowKind::Unparseable);
}

#[test]
fn short_data_row_is_unparseable() {
    let mut row = good_row(44927.5, 123);
    row.pop();
    assert_eq!(classify_row(&row), RowKind::Unparseable);
}

#[test]
fn text_date_cell_is_unparseable() {
    let mut row = good_row(44927.5, 123);
    row[0] = txt("2023-01-01");
    assert_eq!(classify_row(&row), RowKind::Unparseable);
}

#[test]
fn missing_magnitude_is_unparseable() {
    let mut row = good_row(44927.5, 123);
    row[2] = txt("123");
    assert_eq!(classify_row(&row), RowKind::Unparseable);
}

#[test]
fn pre_epoch_serial_is_unparseable() {
    let row = good_row(1.25, 5);
    assert_eq!(classify_row(&row), RowKind::Unparseable);
}

#[test]
fn overlong_day_seconds_are_unparseable() {
    let mut row = good_row(44927.5, 5);
    row[1] = Cell::DateTime { serial_days: 44927, day_seconds: 86400 };
    assert_eq!(classify_row(&row), RowKind::Unparseable);
}

#[test]
fn stray_text_row_is_unparseable() {
    let row = vec![txt("Sensor export v2"), Cell::Empty, Cell::Empty];
    assert_eq!(classify_row(&row), RowKind::Unparseable);
}
