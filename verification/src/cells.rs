//! The cell model: what one spreadsheet cell can hold, as plain values.
//!
//! A numeric cell carries both its canonical decimal text (used verbatim
//! for integer and decimal fields) and its value as a whole-day count
//! plus seconds within the day (the spreadsheet serial, scaled to
//! seconds and rounded, used for date fields).

use vstd::prelude::*;

verus! {

/// One spreadsheet cell.
#[derive(Debug, PartialEq, Eq)]
pub enum CellValue {
    /// A string cell.
    Text(String),
    /// A numeric cell: its canonical decimal text, the whole days of its
    /// serial value, and the seconds within that day.
    Number { text: String, days: i64, day_seconds: u32 },
    /// A boolean cell.
    Bool(bool),
    /// An empty cell.
    Empty,
}

/// The cell a row holds at a column index, if any.
pub open spec fn cell_at(row: Seq<CellValue>, i: int) -> Option<CellValue> {
    if 0 <= i < row.len() {
        Some(row[i])
    } else {
        None
    }
}

/// The string content of the cell an optional mapping points at, if the
/// mapping is present, the cell exists, and it is a string.
pub open spec fn opt_text_at(row: Seq<CellValue>, idx: Option<usize>) -> Option<Seq<char>> {
    match idx {
        Some(i) => match cell_at(row, i as int) {
            Some(CellValue::Text(s)) => Some(s@),
            _ => None,
        },
        None => None,
    }
}

} // verus!
