//! The positional tables of a response.
//!
//! Every endpoint answers with `{ "<resource>": { "data": [ [cell, ...], ... ] } }`:
//! rows are arrays, and a column is known by its position alone. This module
//! lifts such a table out of a parsed document, as rows of plain cells.

use crate::error::DecodeError;
use crate::json::{json_parse, json_view, member, parse_document, real_bits, JsonModel};
use vstd::prelude::*;

verus! {

/// One cell of a row.
#[derive(Debug, PartialEq, Eq)]
pub enum Cell {
    /// A number: its value where it is an integer that fits in an `i64`, and
    /// the bit pattern of the double that it reads as.
    Number { integer: Option<i64>, real_bits: u64 },
    /// A string.
    Text(String),
    /// Anything else: null, a boolean, an array, an object.
    Other,
}

pub enum CellView {
    Number { integer: Option<i64>, real_bits: u64 },
    Text(Seq<char>),
    Other,
}

impl View for Cell {
    type V = CellView;

    open spec fn view(&self) -> CellView {
        match self {
            Cell::Number { integer, real_bits } => CellView::Number {
                integer: *integer,
                real_bits: *real_bits,
            },
            Cell::Text(text) => CellView::Text(text@),
            Cell::Other => CellView::Other,
        }
    }
}

/// The views of the cells of a row.
pub open spec fn row_view(row: Seq<Cell>) -> Seq<CellView> {
    row.map_values(|cell: Cell| cell@)
}

/// The views of the rows of a table.
pub open spec fn table_view(rows: Seq<Vec<Cell>>) -> Seq<Seq<CellView>> {
    rows.map_values(|row: Vec<Cell>| row_view(row@))
}

/// The cell that a JSON value is read as.
pub open spec fn cell_of(value: JsonModel) -> CellView {
    match value {
        JsonModel::Number { integer, real_bits } => CellView::Number { integer, real_bits },
        JsonModel::Text(chars) => CellView::Text(chars),
        _ => CellView::Other,
    }
}

/// The array `data` of the object `resource` of a document.
pub open spec fn data_of(document: JsonModel, resource: Seq<char>) -> Option<Seq<JsonModel>> {
    match document.member(resource) {
        Some(block) => match block.member("data"@) {
            Some(data) => data.elements(),
            None => None,
        },
        None => None,
    }
}

/// The first `count` rows of `data` as rows of cells; the first row that is
/// not an array is reported.
pub open spec fn rows_of(data: Seq<JsonModel>, count: int) -> Result<
    Seq<Seq<CellView>>,
    DecodeError,
>
    decreases count,
{
    if count <= 0 {
        Ok(Seq::empty())
    } else {
        match rows_of(data, count - 1) {
            Err(error) => Err(error),
            Ok(rows) => match data[count - 1].elements() {
                Some(items) => Ok(rows.push(items.map_values(|item: JsonModel| cell_of(item)))),
                None => Err(DecodeError::RowNotArray { row: (count - 1) as usize }),
            },
        }
    }
}

/// The table of `resource` in a document: its rows in order, each as cells.
pub open spec fn table_of(document: JsonModel, resource: Seq<char>) -> Result<
    Seq<Seq<CellView>>,
    DecodeError,
> {
    match data_of(document, resource) {
        Some(data) => rows_of(data, data.len() as int),
        None => Err(DecodeError::MissingTable),
    }
}

/// The table of `resource` in a response body.
pub open spec fn table_of_body(body: Seq<char>, resource: Seq<char>) -> Result<
    Seq<Seq<CellView>>,
    DecodeError,
> {
    match json_parse(body) {
        Some(document) => table_of(document, resource),
        None => Err(DecodeError::Syntax),
    }
}

/// What a table result holds, by view.
pub open spec fn table_result_view(result: Result<Vec<Vec<Cell>>, DecodeError>) -> Result<
    Seq<Seq<CellView>>,
    DecodeError,
> {
    match result {
        Ok(rows) => Ok(table_view(rows@)),
        Err(error) => Err(error),
    }
}

proof fn lemma_row_error_sticks(data: Seq<JsonModel>, first: int, count: int)
    requires
        0 <= first <= count,
        rows_of(data, first) is Err,
    ensures
        rows_of(data, count) == rows_of(data, first),
    decreases count - first,
{
    if first < count {
        lemma_row_error_sticks(data, first, count - 1);
    }
}

/// Reads one JSON value as a cell.
pub(crate) fn read_cell(value: &serde_json::Value) -> (cell: Cell)
    ensures
        cell@ == cell_of(json_view(*value)),
{
    match value.as_str() {
        Some(text) => Cell::Text(text.to_owned()),
        None => match real_bits(value) {
            Some(bits) => Cell::Number { integer: value.as_i64(), real_bits: bits },
            None => Cell::Other,
        },
    }
}

/// Reads the elements of a JSON array as a row of cells.
pub(crate) fn read_row(items: &Vec<serde_json::Value>) -> (row: Vec<Cell>)
    ensures
        row_view(row@) == items@.map_values(|item: serde_json::Value| cell_of(json_view(item))),
{
    let mut row: Vec<Cell> = Vec::new();
    let mut at: usize = 0;
    while at < items.len()
        invariant
            at <= items.len(),
            row@.len() == at,
            forall|k: int| 0 <= k < at ==> (#[trigger] row@[k])@ == cell_of(json_view(items@[k])),
        decreases items.len() - at,
    {
        let cell = read_cell(&items[at]);
        row.push(cell);
        at = at + 1;
    }
    assert(row_view(row@) =~= items@.map_values(
        |item: serde_json::Value| cell_of(json_view(item)),
    ));
    row
}

/// Lifts the table of `resource` out of a parsed document.
///
/// Fails with `MissingTable` where the document has no `resource.data`
/// array, and with `RowNotArray` at the first row that is not an array.
pub(crate) fn read_table(document: &serde_json::Value, resource: &str) -> (result: Result<
    Vec<Vec<Cell>>,
    DecodeError,
>)
    ensures
        table_result_view(result) == table_of(json_view(*document), resource@),
{
    let block = match member(document, resource) {
        Some(block) => block,
        None => {
            return Err(DecodeError::MissingTable);
        },
    };
    let data = match member(block, "data") {
        Some(data) => data,
        None => {
            return Err(DecodeError::MissingTable);
        },
    };
    let list = match data.as_array() {
        Some(list) => list,
        None => {
            return Err(DecodeError::MissingTable);
        },
    };
    let ghost data_model = list@.map_values(|item: serde_json::Value| json_view(item));
    let mut rows: Vec<Vec<Cell>> = Vec::new();
    let mut at: usize = 0;
    assert(table_view(rows@) =~= Seq::<Seq<CellView>>::empty());
    while at < list.len()
        invariant
            at <= list.len(),
            data_model == list@.map_values(|item: serde_json::Value| json_view(item)),
            data_of(json_view(*document), resource@) == Some(data_model),
            rows_of(data_model, at as int) == Ok::<Seq<Seq<CellView>>, DecodeError>(
                table_view(rows@),
            ),
        decreases list.len() - at,
    {
        match list[at].as_array() {
            Some(items) => {
                let row = read_row(items);
                proof {
                    let elements = data_model[at as int].elements().unwrap();
                    assert(elements == items@.map_values(
                        |item: serde_json::Value| json_view(item),
                    ));
                    assert(row_view(row@) =~= elements.map_values(
                        |item: JsonModel| cell_of(item),
                    ));
                    assert(table_view(rows@.push(row)) =~= table_view(rows@).push(
                        row_view(row@),
                    ));
                }
                rows.push(row);
            },
            None => {
                proof {
                    lemma_row_error_sticks(data_model, at + 1, data_model.len() as int);
                }
                return Err(DecodeError::RowNotArray { row: at });
            },
        }
        at = at + 1;
    }
    Ok(rows)
}

/// Parses a response body and lifts the table of `resource` out of it.
///
/// Fails with `Syntax` where the body is no JSON document, and as
/// [`read_table`] does on a document of the wrong shape.
pub fn read_body(body: &str, resource: &str) -> (result: Result<Vec<Vec<Cell>>, DecodeError>)
    ensures
        table_result_view(result) == table_of_body(body@, resource@),
{
    match parse_document(body) {
        Ok(document) => read_table(&document, resource),
        Err(_) => Err(DecodeError::Syntax),
    }
}

} // verus!
