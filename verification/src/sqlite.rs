//! The embedded engine: a statement is prepared on an open connection and
//! run, and what the engine gives is brought into the normalized table.
//!
//! The names and declared types of a statement's columns are read by the
//! caller and handed in: the engine takes any bytes as a name in a schema,
//! and its binding gives a name only as text.
//!
//! The engine types its values one by one, so every cell keeps its own type.
//! A row that could not be read becomes an empty row; the other rows stay.

use crate::error::Error;
use crate::types::{CellValue, CellView, Column, ColumnView, QueryResult, TableView};
use tokio_rusqlite::rusqlite::types::ValueRef;
use tokio_rusqlite::rusqlite::Error as EngineSqliteError;
use tokio_rusqlite::rusqlite::{Connection, Row, Statement};
use tokio_rusqlite::Error as SqliteError;
use vstd::prelude::*;
use vstd::utf8::{decode_utf8, valid_utf8};

verus! {

/// What the engine reports of one output column of a prepared statement.
#[derive(Clone, Debug, PartialEq, Eq)]
pub struct SqliteColumn {
    pub name: String,
    /// The type the column was declared with; `None` for an expression.
    pub declared_type: Option<String>,
}

/// What a [`SqliteColumn`] is in specifications.
pub struct SqliteColumnView {
    pub name: Seq<char>,
    pub declared_type: Option<Seq<char>>,
}

impl View for SqliteColumn {
    type V = SqliteColumnView;

    open spec fn view(&self) -> SqliteColumnView {
        SqliteColumnView {
            name: self.name@,
            declared_type: match self.declared_type {
                Some(t) => Some(t@),
                None => None,
            },
        }
    }
}

impl DeepView for SqliteColumn {
    type V = SqliteColumnView;

    open spec fn deep_view(&self) -> SqliteColumnView {
        self@
    }
}

/// One value as the engine holds it. `Real` is the IEEE 754 bit pattern of
/// the double; `Text` is the bytes as stored, which need not be UTF-8.
#[derive(Clone, Debug, PartialEq, Eq)]
pub enum SqliteValue {
    Null,
    Integer(i64),
    Real(u64),
    Text(Vec<u8>),
    Blob(Vec<u8>),
}

/// What a [`SqliteValue`] is in specifications.
pub enum SqliteValueView {
    Null,
    Integer(i64),
    Real(u64),
    Text(Seq<u8>),
    Blob(Seq<u8>),
}

impl View for SqliteValue {
    type V = SqliteValueView;

    open spec fn view(&self) -> SqliteValueView {
        match self {
            SqliteValue::Null => SqliteValueView::Null,
            SqliteValue::Integer(i) => SqliteValueView::Integer(*i),
            SqliteValue::Real(bits) => SqliteValueView::Real(*bits),
            SqliteValue::Text(t) => SqliteValueView::Text(t@),
            SqliteValue::Blob(b) => SqliteValueView::Blob(b@),
        }
    }
}

impl DeepView for SqliteValue {
    type V = SqliteValueView;

    open spec fn deep_view(&self) -> SqliteValueView {
        self@
    }
}

/// The text that `String::from_utf8_lossy` makes of bytes that are not valid
/// UTF-8: each invalid sequence replaced by U+FFFD.
pub uninterp spec fn utf8_lossy(bytes: Seq<u8>) -> Seq<char>;

/// The text that stored bytes are shown as: the text they encode where they
/// are valid UTF-8, the lossy reading otherwise.
pub open spec fn text_of(bytes: Seq<u8>) -> Seq<char> {
    if valid_utf8(bytes) {
        decode_utf8(bytes)
    } else {
        utf8_lossy(bytes)
    }
}

/// `String::from_utf8_lossy`: valid UTF-8 is taken as the text it encodes;
/// for other bytes the result is named, not stated.
#[verifier::external_body]
fn lossy_text(bytes: &Vec<u8>) -> (text: String)
    ensures
        text@ == (if valid_utf8(bytes@) {
            decode_utf8(bytes@)
        } else {
            utf8_lossy(bytes@)
        }),
{
    String::from_utf8_lossy(bytes).into_owned()
}

/// The normalized column for a reported one: the name, no numeric type tag,
/// and the declared type as the type name.
pub open spec fn spec_column_of(reported: SqliteColumnView) -> ColumnView {
    ColumnView { name: reported.name, type_id: None, data_type_name: reported.declared_type }
}

/// The normalized cell for an engine value, variant for variant.
pub open spec fn spec_cell_of(value: SqliteValueView) -> CellView {
    match value {
        SqliteValueView::Null => CellView::Null,
        SqliteValueView::Integer(i) => CellView::Int64(i),
        SqliteValueView::Real(bits) => CellView::Float64(bits),
        SqliteValueView::Text(bytes) => CellView::Text(text_of(bytes)),
        SqliteValueView::Blob(bytes) => CellView::Blob(bytes),
    }
}

/// The normalized row for what was read of one row: a cell for each value,
/// or no cell at all where the row could not be read.
pub open spec fn spec_row_of(read: Option<Seq<SqliteValueView>>) -> Seq<CellView> {
    match read {
        Some(values) => Seq::new(values.len(), |i: int| spec_cell_of(values[i])),
        None => Seq::empty(),
    }
}

/// The normalized table for the reported columns and the rows as read.
pub open spec fn spec_assemble(
    reported: Seq<SqliteColumnView>,
    read: Seq<Option<Seq<SqliteValueView>>>,
) -> TableView {
    TableView {
        columns: Seq::new(reported.len(), |i: int| spec_column_of(reported[i])),
        rows: Seq::new(read.len(), |i: int| spec_row_of(read[i])),
    }
}

/// Every row was read, and in full: one value per reported column.
pub open spec fn all_rows_read(width: nat, read: Seq<Option<Seq<SqliteValueView>>>) -> bool {
    forall|i: int|
        0 <= i < read.len() ==> ((#[trigger] read[i]) matches Some(values) && values.len() == width)
}

/// The normalized column for a reported one.
pub fn column_of(reported: &SqliteColumn) -> (column: Column)
    ensures
        column@ == spec_column_of(reported@),
{
    let data_type_name = match &reported.declared_type {
        Some(t) => Some(t.clone()),
        None => None,
    };
    Column { name: reported.name.clone(), type_id: None, data_type_name }
}

/// The normalized cell for an engine value.
pub fn cell_of(value: SqliteValue) -> (cell: CellValue)
    ensures
        cell@ == spec_cell_of(value@),
{
    match value {
        SqliteValue::Null => CellValue::Null,
        SqliteValue::Integer(i) => CellValue::Int64(i),
        SqliteValue::Real(bits) => CellValue::Float64(bits),
        SqliteValue::Text(bytes) => CellValue::Text(lossy_text(&bytes)),
        SqliteValue::Blob(bytes) => CellValue::Blob(bytes),
    }
}

/// The normalized row for what was read of one row.
pub fn row_of(read: Option<Vec<SqliteValue>>) -> (cells: Vec<CellValue>)
    ensures
        cells.deep_view() == spec_row_of(read.deep_view()),
{
    let mut cells: Vec<CellValue> = Vec::new();
    match read {
        None => {
            assert(cells.deep_view() =~= Seq::<CellView>::empty());
        },
        Some(values) => {
            let ghost all = values;
            for value in it: values
                invariant
                    it.seq() == all@,
                    cells.len() == it.index(),
                    forall|j: int| 0 <= j < cells.len() ==> (#[trigger] cells@[j])@ == spec_cell_of(all@[j]@),
            {
                cells.push(cell_of(value));
            }
            assert(cells.deep_view() =~= spec_row_of(Some(all.deep_view())));
        },
    }
    cells
}

/// The normalized table for the reported columns and the rows as read.
///
/// Where every row was read in full, every row of the table has one cell
/// per column.
pub fn assemble(reported: &Vec<SqliteColumn>, read: Vec<Option<Vec<SqliteValue>>>) -> (table: QueryResult)
    ensures
        table@ == spec_assemble(reported.deep_view(), read.deep_view()),
        all_rows_read(reported.len() as nat, read.deep_view()) ==> table@.well_formed(),
{
    let mut columns: Vec<Column> = Vec::new();
    let mut i: usize = 0;
    while i < reported.len()
        invariant
            i <= reported.len(),
            columns.len() == i,
            forall|j: int| 0 <= j < i ==> (#[trigger] columns@[j])@ == spec_column_of(reported@[j]@),
        decreases reported.len() - i,
    {
        columns.push(column_of(&reported[i]));
        i += 1;
    }
    let mut rows: Vec<Vec<CellValue>> = Vec::new();
    let ghost all = read;
    for row in it: read
        invariant
            it.seq() == all@,
            rows.len() == it.index(),
            forall|j: int|
                0 <= j < rows.len() ==> (#[trigger] rows@[j]).deep_view() == spec_row_of(
                    all@[j].deep_view(),
                ),
    {
        rows.push(row_of(row));
    }
    let table = QueryResult { columns, rows };
    proof {
        let want = spec_assemble(reported.deep_view(), all.deep_view());
        assert(table@.columns =~= want.columns);
        assert(table@.rows =~= want.rows);
        if all_rows_read(reported.len() as nat, all.deep_view()) {
            assert forall|k: int| 0 <= k < table@.rows.len() implies (#[trigger] table@.rows[k]).len()
                == table@.columns.len() by {
                assert(all.deep_view()[k] is Some);
            }
        }
    }
    table
}

/// An open connection of the engine's binding.
#[verifier::external_type_specification]
#[verifier::external_body]
pub struct ExConnection(Connection);

/// A statement that the engine has prepared on a connection.
#[verifier::external_type_specification]
#[verifier::external_body]
pub struct ExStatement<'conn>(Statement<'conn>);

/// The row that a running statement stands on.
#[verifier::external_type_specification]
#[verifier::external_body]
pub struct ExRow<'stmt>(Row<'stmt>);

/// `Connection::prepare`: the prepared statement, or the engine's error.
/// Which of the two depends on the statement and on the database.
#[verifier::external_body]
fn engine_prepare<'conn>(connection: &'conn Connection, sql: &str) -> Result<
    Statement<'conn>,
    EngineSqliteError,
> {
    connection.prepare(sql)
}

/// The values that a row holds: one for each output column of its
/// statement, in column order, each brought over variant for variant.
pub uninterp spec fn row_values(row: Row<'_>) -> Seq<SqliteValueView>;

/// `Row::get_ref`: the value in one column of the row, brought over variant
/// for variant. It gives a value exactly for an index within the row's
/// columns, and then that column's value; for an index beyond them it gives
/// the engine's error.
#[verifier::external_body]
fn value_at(row: &Row<'_>, index: usize) -> (read: Result<SqliteValue, EngineSqliteError>)
    ensures
        read matches Ok(value) ==> index < row_values(*row).len() && value@ == row_values(*row)[index as int],
        read is Err ==> index >= row_values(*row).len(),
{
    Ok(
        match row.get_ref(index)? {
            ValueRef::Null => SqliteValue::Null,
            ValueRef::Integer(i) => SqliteValue::Integer(i),
            ValueRef::Real(x) => SqliteValue::Real(x.to_bits()),
            ValueRef::Text(bytes) => SqliteValue::Text(bytes.to_vec()),
            ValueRef::Blob(bytes) => SqliteValue::Blob(bytes.to_vec()),
        },
    )
}

/// Reads the first `width` values of a row: where the row holds that many,
/// these values in column order; where it holds fewer, the engine's error
/// for the first column that is not there.
fn read_row(row: &Row<'_>, width: usize) -> (read: Result<Vec<SqliteValue>, EngineSqliteError>)
    ensures
        width <= row_values(*row).len() ==> (read matches Ok(values) && values.deep_view()
            == row_values(*row).take(width as int)),
        width > row_values(*row).len() ==> read is Err,
        read matches Ok(values) ==> values.len() == width,
{
    let mut values: Vec<SqliteValue> = Vec::new();
    let mut i: usize = 0;
    while i < width
        invariant
            i <= width,
            values.len() == i,
            i <= row_values(*row).len(),
            forall|j: int| 0 <= j < i ==> (#[trigger] values@[j])@ == row_values(*row)[j],
        decreases width - i,
    {
        match value_at(row, i) {
            Ok(value) => values.push(value),
            Err(e) => {
                return Err(e);
            },
        }
        i += 1;
    }
    assert(values.deep_view() =~= row_values(*row).take(width as int));
    Ok(values)
}

/// `Statement::query_map` without parameters, with [`read_row`] as the
/// function that is mapped over the rows: what was read of each row in
/// cursor order, `None` for a row that failed; or the engine's error where
/// the statement could not be started. A row that was read came from
/// `read_row`, so it holds `width` values.
#[verifier::external_body]
fn run(statement: &mut Statement<'_>, width: usize) -> (outcome: Result<
    Vec<Option<Vec<SqliteValue>>>,
    EngineSqliteError,
>)
    ensures
        outcome matches Ok(read) ==> forall|i: int|
            0 <= i < read.len() ==> ((#[trigger] read[i]) matches Some(values) ==> values.len() == width),
{
    let rows = statement.query_map([], |row| read_row(row, width))?;
    Ok(rows.map(|row| row.ok()).collect())
}

/// `From<rusqlite::Error>` of the driver's error type: the driver's error
/// that wraps an error of the engine.
#[verifier::external_body]
fn wrap(err: EngineSqliteError) -> SqliteError {
    SqliteError::from(err)
}

/// Every row is empty or has `width` cells.
pub open spec fn rows_empty_or_full(width: nat, rows: Seq<Seq<CellView>>) -> bool {
    forall|i: int| 0 <= i < rows.len() ==> (#[trigger] rows[i]).len() == 0 || rows[i].len() == width
}

/// The error for a failure that the engine reported of a statement: the
/// driver's error around the engine's, so that it is shown as what the
/// engine said.
pub fn failed(failure: EngineSqliteError) -> (error: Error)
    ensures
        error is SQLite,
{
    Error::from_sqlite(&wrap(failure))
}

/// What becomes of an attempt to prepare a statement: the statement where
/// the engine prepared it, a `SQLite` error where the engine refused.
pub fn prepared<'conn>(outcome: Result<Statement<'conn>, EngineSqliteError>) -> (result: Result<
    Statement<'conn>,
    Error,
>)
    ensures
        outcome matches Ok(statement) ==> result matches Ok(r) && r == statement,
        outcome is Err ==> (result matches Err(e) && e is SQLite),
{
    match outcome {
        Ok(statement) => Ok(statement),
        Err(failure) => Err(failed(failure)),
    }
}

/// Prepares a statement on an open connection. The text goes to the engine
/// as it is; whether the engine prepares it is the engine's to say, and
/// where it refuses, the failure comes back as a `SQLite` error.
/// [`prepared`] says what is returned for each answer of the engine.
pub fn prepare<'conn>(connection: &'conn Connection, sql: &str) -> (result: Result<
    Statement<'conn>,
    Error,
>)
    ensures
        result matches Err(e) ==> e is SQLite,
{
    prepared(engine_prepare(connection, sql))
}

/// What becomes of a run of a statement: the normalized table for the
/// reported columns and the rows as read where the statement ran, a `SQLite`
/// error where the engine could not start it.
pub fn finished(
    reported: &Vec<SqliteColumn>,
    outcome: Result<Vec<Option<Vec<SqliteValue>>>, EngineSqliteError>,
) -> (result: Result<QueryResult, Error>)
    ensures
        outcome matches Ok(read) ==> (result matches Ok(table) && table@ == spec_assemble(
            reported.deep_view(),
            read.deep_view(),
        )),
        outcome is Err ==> (result matches Err(e) && e is SQLite),
{
    match outcome {
        Ok(read) => Ok(assemble(reported, read)),
        Err(failure) => Err(failed(failure)),
    }
}

/// Runs a prepared statement and returns the normalized table for the
/// columns that it was found to report.
///
/// What the statement yields is the engine's to say; whatever that is: a
/// failure to start the statement comes back as a `SQLite` error; a table
/// comes back with the normalized columns, and with every row either in
/// full, one cell per column, or empty, which is what a row that could not
/// be read becomes. [`finished`] says cell by cell what the table is for
/// what the engine gave.
pub fn rows_of(statement: &mut Statement<'_>, reported: &Vec<SqliteColumn>) -> (result: Result<
    QueryResult,
    Error,
>)
    ensures
        result matches Ok(table) ==> table@.columns == Seq::new(
            reported.len() as nat,
            |i: int| spec_column_of(reported[i]@),
        ) && rows_empty_or_full(reported.len() as nat, table@.rows),
        result matches Err(e) ==> e is SQLite,
{
    let outcome = run(statement, reported.len());
    let ghost ran = outcome;
    let result = finished(reported, outcome);
    proof {
        if result is Ok {
            let table = result->Ok_0;
            let rows_read = ran->Ok_0.deep_view();
            assert(table@.columns =~= Seq::new(
                reported.len() as nat,
                |i: int| spec_column_of(reported[i]@),
            ));
            assert forall|i: int| 0 <= i < table@.rows.len() implies (#[trigger] table@.rows[i]).len()
                == 0 || table@.rows[i].len() == reported.len() by {
                assert(table@.rows[i] == spec_row_of(rows_read[i]));
            }
        }
    }
    result
}

} // verus!
