//! PostgreSQL: the columns come from the prepared statement, the rows from
//! the simple query protocol, which sends every value as text.
//!
//! Of the messages that a simple query answers with, only the data rows
//! count; the others are passed over.

use crate::text::{spec_text_rows, text_row};
use crate::types::{CellValue, Column, ColumnView, QueryResult, TableView};
use vstd::prelude::*;

verus! {

/// What a prepared statement reports of one output column: its name and
/// the engine's numeric identifier of its type.
#[derive(Clone, Debug, PartialEq, Eq)]
pub struct PgColumn {
    pub name: String,
    pub oid: u32,
}

/// What a [`PgColumn`] is in specifications.
pub struct PgColumnView {
    pub name: Seq<char>,
    pub oid: u32,
}

impl View for PgColumn {
    type V = PgColumnView;

    open spec fn view(&self) -> PgColumnView {
        PgColumnView { name: self.name@, oid: self.oid }
    }
}

impl DeepView for PgColumn {
    type V = PgColumnView;

    open spec fn deep_view(&self) -> PgColumnView {
        self@
    }
}

/// One message of the answer to a simple query.
#[derive(Clone, Debug, PartialEq, Eq)]
pub enum PgMessage {
    /// A row of data: one text per column, `None` where there is no value.
    Row(Vec<Option<String>>),
    /// A statement has completed; the number of rows it touched.
    CommandComplete(u64),
    /// The names of the columns of the rows that follow.
    RowDescription(Vec<String>),
}

/// What a [`PgMessage`] is in specifications.
pub enum PgMessageView {
    Row(Seq<Option<Seq<char>>>),
    CommandComplete(u64),
    RowDescription(Seq<Seq<char>>),
}

impl View for PgMessage {
    type V = PgMessageView;

    open spec fn view(&self) -> PgMessageView {
        match self {
            PgMessage::Row(cells) => PgMessageView::Row(cells.deep_view()),
            PgMessage::CommandComplete(count) => PgMessageView::CommandComplete(*count),
            PgMessage::RowDescription(names) => PgMessageView::RowDescription(names.deep_view()),
        }
    }
}

impl DeepView for PgMessage {
    type V = PgMessageView;

    open spec fn deep_view(&self) -> PgMessageView {
        self@
    }
}

/// The normalized column for a reported one: the name, the engine's type
/// identifier as it came, and no type name.
pub open spec fn spec_column_of(reported: PgColumnView) -> ColumnView {
    ColumnView { name: reported.name, type_id: Some(reported.oid), data_type_name: None }
}

/// The normalized columns for the reported ones, in the same order.
pub open spec fn spec_columns(reported: Seq<PgColumnView>) -> Seq<ColumnView> {
    Seq::new(reported.len(), |i: int| spec_column_of(reported[i]))
}

/// The data rows among the messages, in the order in which they came.
pub open spec fn spec_data_rows(messages: Seq<PgMessageView>) -> Seq<Seq<Option<Seq<char>>>>
    decreases messages.len(),
{
    if messages.len() == 0 {
        Seq::empty()
    } else {
        let before = spec_data_rows(messages.drop_last());
        match messages.last() {
            PgMessageView::Row(cells) => before.push(cells),
            _ => before,
        }
    }
}

/// The normalized table: the columns of the statement, and the data rows
/// among the messages, each cut to one text cell per column.
pub open spec fn spec_result(reported: Seq<PgColumnView>, messages: Seq<PgMessageView>) -> TableView {
    TableView {
        columns: spec_columns(reported),
        rows: spec_text_rows(spec_data_rows(messages), reported.len()),
    }
}

/// Every table that [`spec_result`] describes has one cell per column in
/// every row.
pub proof fn law_result_well_formed(reported: Seq<PgColumnView>, messages: Seq<PgMessageView>)
    ensures
        spec_result(reported, messages).well_formed(),
{
}

/// The columns of a table are those of the statement whatever the messages
/// hold; where no message is a data row, the table has these columns and no
/// row.
pub proof fn law_columns_without_rows(reported: Seq<PgColumnView>, messages: Seq<PgMessageView>)
    ensures
        spec_result(reported, messages).columns == spec_columns(reported),
        spec_result(reported, messages).columns.len() == reported.len(),
        spec_data_rows(messages).len() == 0 ==> spec_result(reported, messages).rows.len() == 0,
{
}

/// The normalized column for a reported one.
pub fn column_of(reported: &PgColumn) -> (column: Column)
    ensures
        column@ == spec_column_of(reported@),
{
    Column { name: reported.name.clone(), type_id: Some(reported.oid), data_type_name: None }
}

/// The normalized columns for the reported ones, in the same order.
pub fn columns(reported: &Vec<PgColumn>) -> (columns: Vec<Column>)
    ensures
        columns.deep_view() == spec_columns(reported.deep_view()),
        columns.len() == reported.len(),
{
    let mut columns: Vec<Column> = Vec::new();
    let mut i: usize = 0;
    while i < reported.len()
        invariant
            i <= reported.len(),
            columns.len() == i,
            forall|j: int| 0 <= j < i ==> (#[trigger] columns@[j])@ == spec_column_of(reported@[j]@),
        decreases reported.len() - i,
    {
        columns.push(column_of(&reported[i]));
        i += 1;
    }
    assert(columns.deep_view() =~= spec_columns(reported.deep_view()));
    columns
}

/// The data rows among the messages, each cut to `width` text cells, in the
/// order in which they came.
pub fn rows(messages: &Vec<PgMessage>, width: usize) -> (table: Vec<Vec<CellValue>>)
    ensures
        table.deep_view() == spec_text_rows(spec_data_rows(messages.deep_view()), width as nat),
        forall|i: int| 0 <= i < table.len() ==> (#[trigger] table@[i]).len() == width,
{
    let mut table: Vec<Vec<CellValue>> = Vec::new();
    let ghost all = messages.deep_view();
    let mut i: usize = 0;
    assert(all.take(0) =~= Seq::<PgMessageView>::empty());
    while i < messages.len()
        invariant
            i <= messages.len(),
            all == messages.deep_view(),
            table.deep_view() == spec_text_rows(spec_data_rows(all.take(i as int)), width as nat),
            forall|j: int| 0 <= j < table.len() ==> (#[trigger] table@[j]).len() == width,
        decreases messages.len() - i,
    {
        let ghost before = table.deep_view();
        proof {
            assert(all.take(i + 1).drop_last() =~= all.take(i as int));
            assert(all.take(i + 1).last() == messages@[i as int]@);
        }
        match &messages[i] {
            PgMessage::Row(cells) => {
                table.push(text_row(cells, width));
                assert(table.deep_view() =~= before.push(
                    crate::text::spec_text_row(cells.deep_view(), width as nat),
                ));
                assert(table.deep_view() =~= spec_text_rows(
                    spec_data_rows(all.take(i + 1)),
                    width as nat,
                ));
            },
            _ => {},
        }
        i += 1;
    }
    assert(all.take(i as int) =~= all);
    table
}

/// The normalized table for what the statement reports and what the query
/// was answered with.
pub fn result(reported: &Vec<PgColumn>, messages: &Vec<PgMessage>) -> (table: QueryResult)
    ensures
        table@ == spec_result(reported.deep_view(), messages.deep_view()),
        table@.well_formed(),
        table.columns.len() == reported.len(),
        table.rows.len() == spec_data_rows(messages.deep_view()).len(),
        forall|i: int| 0 <= i < table.rows.len() ==> (#[trigger] table.rows@[i]).len() == reported.len(),
        forall|j: int|
            0 <= j < reported.len() ==> (#[trigger] table.columns@[j]).name@ == reported@[j].name@,
{
    let columns = columns(reported);
    let rows = rows(messages, columns.len());
    let table = QueryResult { columns, rows };
    assert(table.rows.deep_view().len() == spec_data_rows(messages.deep_view()).len());
    assert forall|j: int| 0 <= j < reported.len() implies (#[trigger] table.columns@[j]).name@
        == reported@[j].name@ by {
        assert(table@.columns[j] == spec_column_of(reported.deep_view()[j]));
    }
    table
}

} // verus!
