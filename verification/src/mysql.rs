//! MySQL: a pool of connections is made from a URL, and becomes a client
//! once a first connection was drawn from it; the columns come from the
//! prepared statement, the rows from the text protocol.
//!
//! The driver gives no numeric type identifier at this layer, so every
//! column carries the same placeholder in its place.

use crate::error::Error;
use crate::text::{spec_text_rows, text_rows};
use crate::types::{Column, ColumnView, QueryResult, TableView};
use mysql_async::Error as MysqlError;
use mysql_async::Opts;
use mysql_async::Pool;
use std::sync::Arc;
use vstd::prelude::*;

verus! {

/// The number that stands in every column for the type identifier that the
/// driver does not give.
pub const NO_TYPE_ID: u32 = 0;

/// The largest pool that the library makes. The driver sets room aside for
/// a whole pool at once when it makes one.
pub const POOL_LIMIT: usize = 100_000;

/// The driver's pool of connections to one server.
#[verifier::external_type_specification]
#[verifier::external_body]
pub struct ExPool(Pool);

/// What the driver has read out of a URL.
#[verifier::external_type_specification]
#[verifier::external_body]
pub struct ExOpts(Opts);

/// What the driver makes of a text as the URL of a server, on a machine
/// whose `usize` has `word_bits` bits: the upper bound of the pool that the
/// URL asks for where the driver takes the URL, nothing where it does not.
/// The width is part of the question because the driver reads some
/// parameters of a URL as `usize`.
pub uninterp spec fn url_pool_bound(url: Seq<char>, word_bits: nat) -> Option<nat>;

/// The upper bound of the pool that options ask for.
pub uninterp spec fn pool_bound(opts: Opts) -> nat;

/// `Opts::from_url`: what the driver reads out of the URL, or its error
/// where it does not take the URL. Which URLs it takes, and what pool they
/// ask for, is named, not stated.
#[verifier::external_body]
fn read_url(url: &str) -> (attempt: Result<Opts, MysqlError>)
    ensures
        attempt is Ok <==> url_pool_bound(url@, usize::BITS as nat) is Some,
        attempt matches Ok(opts) ==> url_pool_bound(url@, usize::BITS as nat) == Some(pool_bound(opts)),
{
    Opts::from_url(url).map_err(MysqlError::from)
}

/// `Opts::pool_opts`, `PoolOpts::constraints` and `PoolConstraints::max`:
/// the upper bound of the pool that the options ask for.
#[verifier::external_body]
fn upper_bound(opts: &Opts) -> (bound: usize)
    ensures
        bound == pool_bound(*opts),
{
    opts.pool_opts().constraints().max()
}

/// `Pool::new`: a pool for the server that the options name. No connection
/// is opened yet. The driver sets aside room for as many connections as the
/// upper bound says, and does not return where that room cannot be had, so
/// pools above the library's limit are left out.
#[verifier::external_body]
fn new_pool(opts: Opts) -> Pool
    requires
        pool_bound(opts) <= POOL_LIMIT,
{
    Pool::new(opts)
}

/// A pool of connections made from a URL, of which it is not yet known
/// whether it reaches its server.
pub struct MySQLPool {
    pool: Pool,
}

impl MySQLPool {
    /// The driver's pool.
    pub closed spec fn spec_pool(&self) -> Pool {
        self.pool
    }

    /// The pool for what the driver read out of a URL: a pool where the URL
    /// was taken and asks for a pool within the library's limit; a `MySQL`
    /// error where the driver did not take the URL, or where the pool would
    /// be above the limit.
    pub fn from_opts(attempt: Result<Opts, MysqlError>) -> (result: Result<MySQLPool, Error>)
        ensures
            result is Ok <==> (attempt matches Ok(opts) && pool_bound(opts) <= POOL_LIMIT),
            result matches Err(e) ==> e is MySQL,
    {
        match attempt {
            Ok(opts) => {
                if upper_bound(&opts) <= POOL_LIMIT {
                    Ok(MySQLPool { pool: new_pool(opts) })
                } else {
                    Err(Error::mysql("the URL asks for a pool above the limit".to_owned()))
                }
            },
            Err(e) => Err(Error::from_mysql(&e)),
        }
    }

    /// Makes a pool from a URL. The URL goes to the driver as it is. A pool
    /// is made exactly where the driver takes the URL and the pool that it
    /// asks for is within the library's limit; every failure is a `MySQL`
    /// error. No connection is opened.
    pub fn from_url(url: &str) -> (result: Result<MySQLPool, Error>)
        ensures
            result is Ok <==> (url_pool_bound(url@, usize::BITS as nat) matches Some(bound) && bound
                <= POOL_LIMIT),
            result matches Err(e) ==> e is MySQL,
    {
        MySQLPool::from_opts(read_url(url))
    }

    /// The driver's pool, to draw the first connection from.
    pub fn pool(&self) -> (pool: &Pool)
        ensures
            *pool == self.spec_pool(),
    {
        &self.pool
    }
}

/// A client of one MySQL server that a connection was drawn to.
pub struct MySQLClient {
    pool: Arc<Pool>,
}

impl MySQLClient {
    /// The pool that this client draws its connections from.
    pub closed spec fn spec_pool(&self) -> Pool {
        *self.pool
    }

    /// Makes a client of a pool, given how the attempt to draw a first
    /// connection from it ended: a client of that pool where the server was
    /// reached, the attempt's own error where it was not. A pool whose
    /// server cannot be reached never becomes a client.
    pub fn connect(pool: MySQLPool, reached: Result<(), Error>) -> (result: Result<MySQLClient, Error>)
        ensures
            reached is Ok ==> (result matches Ok(client) && client.spec_pool() == pool.spec_pool()),
            reached matches Err(e) ==> result matches Err(r) && r == e,
    {
        match reached {
            Ok(_) => Ok(MySQLClient { pool: Arc::new(pool.pool) }),
            Err(e) => Err(e),
        }
    }

    /// The pool that this client draws its connections from.
    pub fn pool(&self) -> (pool: &Pool)
        ensures
            *pool == self.spec_pool(),
    {
        &*self.pool
    }
}

/// The normalized column for a name: the name, the placeholder as the type
/// identifier, and no type name.
pub open spec fn spec_column_of(name: Seq<char>) -> ColumnView {
    ColumnView { name, type_id: Some(NO_TYPE_ID), data_type_name: None }
}

/// The normalized columns for the names, in the same order.
pub open spec fn spec_columns(names: Seq<Seq<char>>) -> Seq<ColumnView> {
    Seq::new(names.len(), |i: int| spec_column_of(names[i]))
}

/// The normalized table: a column for each name, and every row cut to one
/// text cell per column.
pub open spec fn spec_result(names: Seq<Seq<char>>, rows: Seq<Seq<Option<Seq<char>>>>) -> TableView {
    TableView { columns: spec_columns(names), rows: spec_text_rows(rows, names.len()) }
}

/// Every table that [`spec_result`] describes has one cell per column in
/// every row.
pub proof fn law_result_well_formed(names: Seq<Seq<char>>, rows: Seq<Seq<Option<Seq<char>>>>)
    ensures
        spec_result(names, rows).well_formed(),
{
}

/// The columns of a table are those of the statement whatever the rows are;
/// where there is no row, the table has these columns and no row.
pub proof fn law_columns_without_rows(names: Seq<Seq<char>>, rows: Seq<Seq<Option<Seq<char>>>>)
    ensures
        spec_result(names, rows).columns == spec_columns(names),
        spec_result(names, rows).columns.len() == names.len(),
        rows.len() == 0 ==> spec_result(names, rows).rows.len() == 0,
{
}

/// The normalized columns for the names that a prepared statement reports.
pub fn columns(names: &Vec<String>) -> (columns: Vec<Column>)
    ensures
        columns.deep_view() == spec_columns(names.deep_view()),
        columns.len() == names.len(),
{
    let mut columns: Vec<Column> = Vec::new();
    let mut i: usize = 0;
    while i < names.len()
        invariant
            i <= names.len(),
            columns.len() == i,
            forall|j: int| 0 <= j < i ==> (#[trigger] columns@[j])@ == spec_column_of(names@[j]@),
        decreases names.len() - i,
    {
        columns.push(Column { name: names[i].clone(), type_id: Some(NO_TYPE_ID), data_type_name: None });
        i += 1;
    }
    assert(columns.deep_view() =~= spec_columns(names.deep_view()));
    columns
}

/// The normalized table for the column names that the statement reports and
/// the rows that the query gave, each value as text where it could be read
/// as text.
pub fn result(names: &Vec<String>, rows: &Vec<Vec<Option<String>>>) -> (table: QueryResult)
    ensures
        table@ == spec_result(names.deep_view(), rows.deep_view()),
        table@.well_formed(),
        table.columns.len() == names.len(),
        table.rows.len() == rows.len(),
        forall|i: int| 0 <= i < table.rows.len() ==> (#[trigger] table.rows@[i]).len() == names.len(),
        forall|j: int| 0 <= j < names.len() ==> (#[trigger] table.columns@[j]).name@ == names@[j]@,
{
    let columns = columns(names);
    let rows = text_rows(rows, columns.len());
    let table = QueryResult { columns, rows };
    assert forall|j: int| 0 <= j < names.len() implies (#[trigger] table.columns@[j]).name@
        == names@[j]@ by {
        assert(table@.columns[j] == spec_column_of(names.deep_view()[j]));
    }
    table
}

} // verus!
