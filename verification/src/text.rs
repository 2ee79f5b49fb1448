//! Rows that arrive as text, as the networked engines send them.
//!
//! A row is cut to the width of the result: one text cell per column. A
//! value that is absent, because the engine sent NULL, because it could not
//! be decoded or because the row is too short, becomes the empty text.

use crate::types::{CellValue, CellView};
use vstd::prelude::*;

verus! {

/// The cell at `index` of a row of texts: the value where there is one, the
/// empty text otherwise.
pub open spec fn spec_text_cell(row: Seq<Option<Seq<char>>>, index: int) -> CellView {
    if 0 <= index < row.len() && row[index] is Some {
        CellView::Text(row[index]->0)
    } else {
        CellView::Text(Seq::empty())
    }
}

/// The first `width` cells of a row of texts.
pub open spec fn spec_text_row(row: Seq<Option<Seq<char>>>, width: nat) -> Seq<CellView> {
    Seq::new(width, |i: int| spec_text_cell(row, i))
}

/// Every row of texts, cut to `width` cells, in the same order.
pub open spec fn spec_text_rows(rows: Seq<Seq<Option<Seq<char>>>>, width: nat) -> Seq<Seq<CellView>> {
    Seq::new(rows.len(), |i: int| spec_text_row(rows[i], width))
}

/// The cell at `index` of a row of texts.
pub fn text_cell(row: &Vec<Option<String>>, index: usize) -> (cell: CellValue)
    ensures
        cell@ == spec_text_cell(row.deep_view(), index as int),
{
    if index < row.len() {
        match &row[index] {
            Some(text) => CellValue::Text(text.clone()),
            None => CellValue::Text(String::new()),
        }
    } else {
        CellValue::Text(String::new())
    }
}

/// The first `width` cells of a row of texts.
pub fn text_row(row: &Vec<Option<String>>, width: usize) -> (cells: Vec<CellValue>)
    ensures
        cells.deep_view() == spec_text_row(row.deep_view(), width as nat),
        cells.len() == width,
{
    let mut cells: Vec<CellValue> = Vec::new();
    let mut i: usize = 0;
    while i < width
        invariant
            i <= width,
            cells.len() == i,
            forall|j: int| 0 <= j < i ==> (#[trigger] cells@[j])@ == spec_text_cell(row.deep_view(), j),
        decreases width - i,
    {
        cells.push(text_cell(row, i));
        i += 1;
    }
    assert(cells.deep_view() =~= spec_text_row(row.deep_view(), width as nat));
    cells
}

/// Every row of texts, cut to `width` cells, in the same order.
pub fn text_rows(rows: &Vec<Vec<Option<String>>>, width: usize) -> (table: Vec<Vec<CellValue>>)
    ensures
        table.deep_view() == spec_text_rows(rows.deep_view(), width as nat),
        table.len() == rows.len(),
        forall|i: int| 0 <= i < table.len() ==> (#[trigger] table@[i]).len() == width,
{
    let mut table: Vec<Vec<CellValue>> = Vec::new();
    let mut i: usize = 0;
    while i < rows.len()
        invariant
            i <= rows.len(),
            table.len() == i,
            forall|j: int|
                0 <= j < i ==> (#[trigger] table@[j]).deep_view() == spec_text_row(
                    rows@[j].deep_view(),
                    width as nat,
                ),
            forall|j: int| 0 <= j < i ==> (#[trigger] table@[j]).len() == width,
        decreases rows.len() - i,
    {
        table.push(text_row(&rows[i], width));
        i += 1;
    }
    assert(table.deep_view() =~= spec_text_rows(rows.deep_view(), width as nat));
    table
}

} // verus!
