//! Why a response could not be turned into records.

use vstd::prelude::*;

verus! {

/// A response that does not have the shape its endpoint promises. Rows and
/// columns are counted from zero.
#[derive(Debug, Clone, Copy, PartialEq, Eq, Structural)]
pub enum DecodeError {
    /// The body is not a JSON document.
    Syntax,
    /// The document has no object of the resource's name, or that object no
    /// array `data`.
    MissingTable,
    /// A row of the table is not an array.
    RowNotArray { row: usize },
    /// A row has no cell in a column that the record needs.
    MissingColumn { row: usize, column: usize },
    /// A cell does not hold the kind of value that the field needs.
    WrongType { row: usize, column: usize },
    /// An integer cell does not fit the field.
    OutOfRange { row: usize, column: usize },
    /// A text cell does not read as a date and time.
    BadTimestamp { row: usize, column: usize },
}

} // verus!
