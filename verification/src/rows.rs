//! Row classification: deciding what one raw spreadsheet row is.
//!
//! A row is a sequence of typed cell values. Exactly one of four kinds
//! applies to it: blank, a header row that opens a data block, a data row
//! that decodes to a sensor sample, or an unparseable row that fits none of
//! those shapes. Classification is a pure function of the row alone.

use crate::date::{Date, TimeOfDay};
use vstd::prelude::*;

verus! {

/// One cell of an input row, reduced to the value shapes the classifier
/// reads. A serial datetime arrives pre-split into its whole-day count and
/// its time of day in seconds; numeric cells arrive as plain integers.
/// `Other` stands for any cell shape the classifier has no use for.
#[derive(Clone, Debug)]
pub enum Cell {
    /// An absent or empty cell.
    Empty,
    /// A string cell.
    Text(String),
    /// A numeric cell holding the sensor magnitude.
    Number(i64),
    /// A serial datetime cell: whole days since the serial epoch, and
    /// seconds since midnight scaled out of the fractional part.
    DateTime { serial_days: i64, day_seconds: u32 },
    /// Any other cell shape (booleans, error markers, and the like).
    Other,
}

/// One sensor reading: a calendar date, a wall-clock time, the magnitude
/// for the sampling interval, and six legacy flags that are parsed for
/// fidelity with the input schema but never consulted by aggregation.
/// A magnitude of exactly -1 means "no reading captured" for that epoch.
#[derive(Clone, Copy, Debug, PartialEq, Eq, Structural)]
pub struct Sample {
    pub date: Date,
    pub time: TimeOfDay,
    pub magnitude: i64,
    pub vigorous: bool,
    pub moderate: bool,
    pub low: bool,
    pub sedentary: bool,
    pub con_vigorous: bool,
    pub con_moderate: bool,
}

/// The classification of one row.
#[derive(Clone, Copy, Debug, PartialEq, Eq, Structural)]
pub enum RowKind {
    /// No cells, or every cell empty.
    Blank,
    /// The literal column headings that open a data block.
    Header,
    /// A row that decodes to a sensor sample.
    Data(Sample),
    /// A non-blank row that fits neither the header nor the data shape.
    Unparseable,
}

/// Whether a cell is a string cell holding exactly the given text.
pub open spec fn cell_is_text(c: Cell, s: Seq<char>) -> bool {
    c matches Cell::Text(t) && t@ == s
}

/// A row is blank when it has no cells or every cell is empty.
pub open spec fn row_is_blank(cells: Seq<Cell>) -> bool {
    forall|i: int| 0 <= i < cells.len() ==> cells[i] is Empty
}

/// A row is a header when its first three cells are the literal strings
/// `"Date"`, `"Time"` and `"Mag. Value"` (case-sensitive, untrimmed).
pub open spec fn row_is_header(cells: Seq<Cell>) -> bool {
    &&& cells.len() >= 3
    &&& cell_is_text(cells[0], "Date"@)
    &&& cell_is_text(cells[1], "Time"@)
    &&& cell_is_text(cells[2], "Mag. Value"@)
}

/// What decoding a date out of one cell yields: a serial datetime cell
/// decodes through its whole-day count, anything else yields nothing.
pub open spec fn spec_extract_date(c: Cell) -> Option<Date> {
    match c {
        Cell::DateTime { serial_days, day_seconds } => Date::spec_from_serial(serial_days as int),
        _ => None,
    }
}

/// What decoding a time of day out of one cell yields: a serial datetime
/// cell decodes through its seconds-of-day count, anything else nothing.
pub open spec fn spec_extract_time(c: Cell) -> Option<TimeOfDay> {
    match c {
        Cell::DateTime { serial_days, day_seconds } => TimeOfDay::spec_from_day_seconds(
            day_seconds as int,
        ),
        _ => None,
    }
}

/// What decoding a magnitude out of one cell yields: the value of a
/// numeric cell, anything else nothing.
pub open spec fn spec_extract_magnitude(c: Cell) -> Option<i64> {
    match c {
        Cell::Number(v) => Some(v),
        _ => None,
    }
}

/// What decoding a yes/no flag out of one cell yields: `"Y"` and `"N"`
/// string cells decode, anything else (blanks included) yields nothing.
pub open spec fn spec_extract_flag(c: Cell) -> Option<bool> {
    match c {
        Cell::Text(t) => if t@ == "Y"@ {
            Some(true)
        } else if t@ == "N"@ {
            Some(false)
        } else {
            None
        },
        _ => None,
    }
}

/// What parsing a whole row as a data row yields: a sample exactly when
/// the row is at least nine cells wide, its first three cells decode to a
/// date, a time and a magnitude, and the next six each decode to a flag.
pub open spec fn spec_parse_sample(cells: Seq<Cell>) -> Option<Sample> {
    if cells.len() < 9 {
        None
    } else {
        match (
            spec_extract_date(cells[0]),
            spec_extract_time(cells[1]),
            spec_extract_magnitude(cells[2]),
            spec_extract_flag(cells[3]),
            spec_extract_flag(cells[4]),
            spec_extract_flag(cells[5]),
            spec_extract_flag(cells[6]),
            spec_extract_flag(cells[7]),
            spec_extract_flag(cells[8]),
        ) {
            (
                Some(date),
                Some(time),
                Some(magnitude),
                Some(vigorous),
                Some(moderate),
                Some(low),
                Some(sedentary),
                Some(con_vigorous),
                Some(con_moderate),
            ) => Some(
                Sample {
                    date,
                    time,
                    magnitude,
                    vigorous,
                    moderate,
                    low,
                    sedentary,
                    con_vigorous,
                    con_moderate,
                },
            ),
            _ => None,
        }
    }
}

/// The classification of one row: blank first, then the header shape,
/// then the data shape, and unparseable when none of those fits.
pub open spec fn spec_classify(cells: Seq<Cell>) -> RowKind {
    if row_is_blank(cells) {
        RowKind::Blank
    } else if row_is_header(cells) {
        RowKind::Header
    } else {
        match spec_parse_sample(cells) {
            Some(s) => RowKind::Data(s),
            None => RowKind::Unparseable,
        }
    }
}

/// Whether a cell is a string cell holding exactly `expected`.
fn cell_text_equals(c: &Cell, expected: &str) -> (b: bool)
    ensures
        b == cell_is_text(*c, expected@),
{
    match c {
        Cell::Text(t) => {
            let e: String = expected.to_owned();
            t.eq(&e)
        },
        _ => false,
    }
}

/// Whether the row is blank: no cells, or every cell empty.
pub fn is_empty(row: &Vec<Cell>) -> (b: bool)
    ensures
        b == row_is_blank(row@),
{
    let mut i: usize = 0;
    while i < row.len()
        invariant
            i <= row.len(),
            forall|j: int| 0 <= j < i ==> row@[j] is Empty,
        decreases row.len() - i,
    {
        match &row[i] {
            Cell::Empty => {},
            _ => {
                return false;
            },
        }
        i += 1;
    }
    true
}

/// Whether the row is the data-block header.
pub fn is_header_row(row: &Vec<Cell>) -> (b: bool)
    ensures
        b == row_is_header(row@),
{
    if row.len() < 3 {
        return false;
    }
    cell_text_equals(&row[0], "Date") && cell_text_equals(&row[1], "Time") && cell_text_equals(
        &row[2],
        "Mag. Value",
    )
}

/// Decodes the date of a data row from one cell.
pub fn extract_date(cell: &Cell) -> (r: Option<Date>)
    ensures
        r == spec_extract_date(*cell),
{
    match cell {
        Cell::DateTime { serial_days, day_seconds: _ } => Date::from_serial_days(*serial_days),
        _ => None,
    }
}

/// Decodes the time of day of a data row from one cell.
pub fn extract_time(cell: &Cell) -> (r: Option<TimeOfDay>)
    ensures
        r == spec_extract_time(*cell),
{
    match cell {
        Cell::DateTime { serial_days: _, day_seconds } => TimeOfDay::from_day_seconds(
            *day_seconds,
        ),
        _ => None,
    }
}

/// Decodes the magnitude of a data row from one cell.
pub fn extract_mag_value(cell: &Cell) -> (r: Option<i64>)
    ensures
        r == spec_extract_magnitude(*cell),
{
    match cell {
        Cell::Number(v) => Some(*v),
        _ => None,
    }
}

/// Decodes one `"Y"`/`"N"` flag cell.
pub fn extract_flag(cell: &Cell) -> (r: Option<bool>)
    ensures
        r == spec_extract_flag(*cell),
{
    match cell {
        Cell::Text(t) => {
            let yes: String = "Y".to_owned();
            if t.eq(&yes) {
                Some(true)
            } else {
                let no: String = "N".to_owned();
                if t.eq(&no) {
                    Some(false)
                } else {
                    None
                }
            }
        },
        _ => None,
    }
}

impl Sample {
    /// Parses a whole row as a data row.
    pub fn from_row(row: &Vec<Cell>) -> (r: Option<Sample>)
        ensures
            r == spec_parse_sample(row@),
    {
        if row.len() < 9 {
            return None;
        }
        let date = match extract_date(&row[0]) {
            Some(d) => d,
            None => {
                return None;
            },
        };
        let time = match extract_time(&row[1]) {
            Some(t) => t,
            None => {
                return None;
            },
        };
        let magnitude = match extract_mag_value(&row[2]) {
            Some(m) => m,
            None => {
                return None;
            },
        };
        let vigorous = match extract_flag(&row[3]) {
            Some(f) => f,
            None => {
                return None;
            },
        };
        let moderate = match extract_flag(&row[4]) {
            Some(f) => f,
            None => {
                return None;
            },
        };
        let low = match extract_flag(&row[5]) {
            Some(f) => f,
            None => {
                return None;
            },
        };
        let sedentary = match extract_flag(&row[6]) {
            Some(f) => f,
            None => {
                return None;
            },
        };
        let con_vigorous = match extract_flag(&row[7]) {
            Some(f) => f,
            None => {
                return None;
            },
        };
        let con_moderate = match extract_flag(&row[8]) {
            Some(f) => f,
            None => {
                return None;
            },
        };
        Some(
            Sample {
                date,
                time,
                magnitude,
                vigorous,
                moderate,
                low,
                sedentary,
                con_vigorous,
                con_moderate,
            },
        )
    }
}

/// Classifies one row.
pub fn classify_row(row: &Vec<Cell>) -> (k: RowKind)
    ensures
        k == spec_classify(row@),
{
    if is_empty(row) {
        RowKind::Blank
    } else if is_header_row(row) {
        RowKind::Header
    } else {
        match Sample::from_row(row) {
            Some(s) => RowKind::Data(s),
            None => RowKind::Unparseable,
        }
    }
}

} // verus!
