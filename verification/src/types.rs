//! The normalized table that every engine's answer is brought into.

use vstd::prelude::*;

verus! {

/// One column of a result: its name and, where the engine reports them, its
/// numeric type tag and its declared type name.
///
/// A type tag is the engine's own number, copied as it came; it is only
/// meaningful together with the engine that produced it.
#[derive(Clone, Debug, PartialEq, Eq)]
pub struct Column {
    pub name: String,
    pub type_id: Option<u32>,
    pub data_type_name: Option<String>,
}

/// What a [`Column`] is in specifications.
pub struct ColumnView {
    pub name: Seq<char>,
    pub type_id: Option<u32>,
    pub data_type_name: Option<Seq<char>>,
}

impl View for Column {
    type V = ColumnView;

    open spec fn view(&self) -> ColumnView {
        ColumnView {
            name: self.name@,
            type_id: self.type_id,
            data_type_name: match self.data_type_name {
                Some(n) => Some(n@),
                None => None,
            },
        }
    }
}

impl DeepView for Column {
    type V = ColumnView;

    open spec fn deep_view(&self) -> ColumnView {
        self@
    }
}

/// One cell of a result.
///
/// `Float64` holds the IEEE 754 bit pattern of a double, so that a value
/// passes through unchanged, bit for bit.
#[derive(Clone, Debug, PartialEq, Eq)]
pub enum CellValue {
    Null,
    Text(String),
    Int64(i64),
    Float64(u64),
    Blob(Vec<u8>),
}

/// What a [`CellValue`] is in specifications.
pub enum CellView {
    Null,
    Text(Seq<char>),
    Int64(i64),
    Float64(u64),
    Blob(Seq<u8>),
}

impl View for CellValue {
    type V = CellView;

    open spec fn view(&self) -> CellView {
        match self {
            CellValue::Null => CellView::Null,
            CellValue::Text(s) => CellView::Text(s@),
            CellValue::Int64(i) => CellView::Int64(*i),
            CellValue::Float64(bits) => CellView::Float64(*bits),
            CellValue::Blob(b) => CellView::Blob(b@),
        }
    }
}

impl DeepView for CellValue {
    type V = CellView;

    open spec fn deep_view(&self) -> CellView {
        self@
    }
}

/// The answer to one statement: the columns, and the rows in the order in
/// which the engine's cursor gave them.
#[derive(Clone, Debug, PartialEq, Eq)]
pub struct QueryResult {
    pub columns: Vec<Column>,
    pub rows: Vec<Vec<CellValue>>,
}

/// What a [`QueryResult`] is in specifications.
pub struct TableView {
    pub columns: Seq<ColumnView>,
    pub rows: Seq<Seq<CellView>>,
}

impl TableView {
    /// Every row has one cell per column.
    pub open spec fn well_formed(self) -> bool {
        forall|i: int| 0 <= i < self.rows.len() ==> (#[trigger] self.rows[i]).len() == self.columns.len()
    }
}

impl View for QueryResult {
    type V = TableView;

    open spec fn view(&self) -> TableView {
        TableView { columns: self.columns.deep_view(), rows: self.rows.deep_view() }
    }
}

impl QueryResult {
    /// Tells whether every row has one cell per column.
    pub fn is_well_formed(&self) -> (ok: bool)
        ensures
            ok == self@.well_formed(),
    {
        let width: usize = self.columns.len();
        let mut i: usize = 0;
        while i < self.rows.len()
            invariant
                i <= self.rows.len(),
                width == self.columns.len(),
                forall|j: int| 0 <= j < i ==> (#[trigger] self@.rows[j]).len() == width,
            decreases self.rows.len() - i,
        {
            if self.rows[i].len() != width {
                assert(self@.rows[i as int].len() != self@.columns.len());
                return false;
            }
            i += 1;
        }
        true
    }
}

} // verus!
