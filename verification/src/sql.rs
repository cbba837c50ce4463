//! The SQLite connection the store works on, through `rusqlite`.
//!
//! `Store` owns the connection and keeps a ghost journal of every exchange
//! with SQLite: the statement sent, the values bound to it, and the answer
//! (rows read, rows changed, or failure), and every reading of the system
//! clock the store's operations take. Only this module writes the
//! journal, each entry next to the call it records, so the contracts of
//! the store's operations can say exactly what they sent and how they
//! turned SQLite's answer into their result. What SQLite answers depends on
//! the database file, so nothing here promises anything of the answer.

use vstd::prelude::*;

verus! {

#[verifier::external_type_specification]
#[verifier::external_body]
pub struct ExConnection(rusqlite::Connection);

#[verifier::external_type_specification]
#[verifier::external_body]
pub struct ExStatement<'conn>(rusqlite::Statement<'conn>);

#[verifier::external_type_specification]
#[verifier::external_body]
pub struct ExRows<'stmt>(rusqlite::Rows<'stmt>);

#[verifier::external_type_specification]
#[verifier::external_body]
pub struct ExRow<'stmt>(rusqlite::Row<'stmt>);

#[verifier::external_type_specification]
#[verifier::external_body]
pub struct ExTransaction<'conn>(rusqlite::Transaction<'conn>);

/// A value bound to a `?` placeholder of a statement.
pub enum SqlParam {
    Text(String),
    Integer(i64),
    Null,
}

/// A bound value as spec code sees it: text by its characters.
pub enum ParamView {
    Text(Seq<char>),
    Integer(i64),
    Null,
}

pub open spec fn param_view(p: SqlParam) -> ParamView {
    match p {
        SqlParam::Text(s) => ParamView::Text(s@),
        SqlParam::Integer(i) => ParamView::Integer(i),
        SqlParam::Null => ParamView::Null,
    }
}

pub open spec fn params_view(ps: Seq<SqlParam>) -> Seq<ParamView> {
    ps.map_values(|p: SqlParam| param_view(p))
}

/// How a result column is read.
#[derive(Clone, Copy)]
pub enum ColumnKind {
    /// Text, never NULL.
    Text,
    /// An integer, never NULL.
    Integer,
    /// Text or NULL.
    OptText,
    /// An integer or NULL.
    OptInteger,
}

/// A column value as read.
pub enum Column {
    Text(String),
    Integer(i64),
    Null,
}

/// A column value as spec code sees it.
pub enum ColumnView {
    Text(Seq<char>),
    Integer(i64),
    Null,
}

pub open spec fn column_view(c: Column) -> ColumnView {
    match c {
        Column::Text(s) => ColumnView::Text(s@),
        Column::Integer(i) => ColumnView::Integer(i),
        Column::Null => ColumnView::Null,
    }
}

pub open spec fn row_view(row: Seq<Column>) -> Seq<ColumnView> {
    row.map_values(|c: Column| column_view(c))
}

pub open spec fn rows_view(rows: Seq<Vec<Column>>) -> Seq<Seq<ColumnView>> {
    rows.map_values(|r: Vec<Column>| row_view(r@))
}

/// A value read as `kind` is of that kind.
pub open spec fn fits(c: ColumnView, kind: ColumnKind) -> bool {
    match kind {
        ColumnKind::Text => c is Text,
        ColumnKind::Integer => c is Integer,
        ColumnKind::OptText => c is Text || c is Null,
        ColumnKind::OptInteger => c is Integer || c is Null,
    }
}

/// A row read with `shape`: one value per column, each of its kind.
pub open spec fn row_fits(row: Seq<ColumnView>, shape: Seq<ColumnKind>) -> bool {
    &&& row.len() == shape.len()
    &&& forall|i: int| 0 <= i < row.len() ==> fits(#[trigger] row[i], shape[i])
}

pub open spec fn rows_fit(rows: Seq<Seq<ColumnView>>, shape: Seq<ColumnKind>) -> bool {
    forall|i: int| 0 <= i < rows.len() ==> row_fits(#[trigger] rows[i], shape)
}

/// One exchange with SQLite.
pub enum Exchange {
    /// One statement run with `Connection::execute`; the number of rows it
    /// changed, `None` when it failed.
    Execute { sql: Seq<char>, params: Seq<ParamView>, changed: Option<usize> },
    /// A query and every row it returned, `None` when it failed.
    Query { sql: Seq<char>, params: Seq<ParamView>, rows: Option<Seq<Seq<ColumnView>>> },
    /// Statements run with `Connection::execute_batch`, outside any
    /// transaction of the store's own.
    Batch { sql: Seq<char>, ok: bool },
    /// Batches run one after the other in one transaction, committed when
    /// `ok` and rolled back otherwise.
    Transaction { batches: Seq<Seq<char>>, ok: bool },
    /// The rowid of the latest `INSERT`, as `last_insert_rowid` reads it.
    LastInsertRowid { rowid: i64 },
    /// The system clock read, in milliseconds since the Unix epoch; `None`
    /// when it reads a time before the epoch.
    Clock { millis: Option<i64> },
}

pub open spec fn strs_view(ss: Seq<&str>) -> Seq<Seq<char>> {
    ss.map_values(|s: &str| s@)
}

/// The rows a query answered, `None` when it failed.
pub open spec fn rows_answer(r: Result<Vec<Vec<Column>>, rusqlite::Error>) -> Option<Seq<Seq<ColumnView>>> {
    match r {
        Ok(rows) => Some(rows_view(rows@)),
        Err(_) => None,
    }
}

/// The rows a statement changed, `None` when it failed.
pub open spec fn changed_answer(r: Result<usize, rusqlite::Error>) -> Option<usize> {
    match r {
        Ok(n) => Some(n),
        Err(_) => None,
    }
}

/// A SQLite connection with the journal of what the store exchanged on it.
pub struct Store {
    conn: rusqlite::Connection,
    journal: Ghost<Seq<Exchange>>,
}

impl Store {
    /// The exchanges with SQLite so far, oldest first.
    pub closed spec fn journal(&self) -> Seq<Exchange> {
        self.journal@
    }

    /// A store on `conn`, with an empty journal.
    pub fn new(conn: rusqlite::Connection) -> (s: Store)
        ensures
            s.journal() == Seq::<Exchange>::empty(),
    {
        Store { conn, journal: Ghost(Seq::empty()) }
    }

    /// The connection, for reading it directly. What is run on it this way
    /// is not in the journal, which holds the store's own exchanges only.
    pub fn connection(&self) -> &rusqlite::Connection {
        &self.conn
    }

    /// Gives the connection back.
    pub fn into_connection(self) -> rusqlite::Connection {
        self.conn
    }

    /// Runs one statement with `params` bound in order; the number of rows
    /// it changed.
    pub(crate) fn execute(&mut self, sql: &str, params: Vec<SqlParam>) -> (r: Result<
        usize,
        rusqlite::Error,
    >)
        ensures
            final(self).journal() == old(self).journal().push(
                Exchange::Execute {
                    sql: sql@,
                    params: params_view(params@),
                    changed: changed_answer(r),
                },
            ),
    {
        let ghost bound = params_view(params@);
        let r = sqlite_execute(&self.conn, sql, params);
        self.journal = Ghost(
            self.journal@.push(Exchange::Execute { sql: sql@, params: bound, changed: changed_answer(r) }),
        );
        r
    }

    /// Runs the `;`-separated statements of `sql`.
    pub(crate) fn execute_batch(&mut self, sql: &str) -> (r: Result<(), rusqlite::Error>)
        ensures
            final(self).journal() == old(self).journal().push(
                Exchange::Batch { sql: sql@, ok: r is Ok },
            ),
    {
        let r = sqlite_execute_batch(&self.conn, sql);
        self.journal = Ghost(self.journal@.push(Exchange::Batch { sql: sql@, ok: r is Ok }));
        r
    }

    /// Runs `batches` one after the other in one transaction, committing it
    /// when all of them succeed; a failure rolls it back.
    pub(crate) fn batches_in_transaction(&mut self, batches: &Vec<&str>) -> (r: Result<
        (),
        rusqlite::Error,
    >)
        ensures
            final(self).journal() == old(self).journal().push(
                Exchange::Transaction { batches: strs_view(batches@), ok: r is Ok },
            ),
    {
        let r = run_transaction(&mut self.conn, batches);
        self.journal = Ghost(
            self.journal@.push(Exchange::Transaction { batches: strs_view(batches@), ok: r is Ok }),
        );
        r
    }

    /// Every row `sql` returns, each column read as `shape` says.
    pub(crate) fn query_rows(&mut self, sql: &str, params: Vec<SqlParam>, shape: &Vec<ColumnKind>) -> (r:
        Result<Vec<Vec<Column>>, rusqlite::Error>)
        ensures
            final(self).journal() == old(self).journal().push(
                Exchange::Query {
                    sql: sql@,
                    params: params_view(params@),
                    rows: rows_answer(r),
                },
            ),
            r matches Ok(rows) ==> rows_fit(rows_view(rows@), shape@),
    {
        read_rows(&self.conn, sql, params, shape, &mut self.journal)
    }

    /// Reads the system clock (`now_ms`), recording the reading.
    pub(crate) fn read_clock(&mut self) -> (t: Option<i64>)
        ensures
            final(self).journal() == old(self).journal().push(Exchange::Clock { millis: t }),
    {
        let t = crate::ids::now_ms();
        self.journal = Ghost(self.journal@.push(Exchange::Clock { millis: t }));
        t
    }

    /// The rowid of the latest successful `INSERT` on the connection. (The
    /// store's own inserts take the rowid from the insert's `RETURNING`
    /// answer instead, which ties it to that insert.)
    pub fn last_insert_rowid(&mut self) -> (id: i64)
        ensures
            final(self).journal() == old(self).journal().push(Exchange::LastInsertRowid { rowid: id }),
    {
        let id = sqlite_last_insert_rowid(&self.conn);
        self.journal = Ghost(self.journal@.push(Exchange::LastInsertRowid { rowid: id }));
        id
    }
}

fn run_transaction(conn: &mut rusqlite::Connection, batches: &Vec<&str>) -> Result<(), rusqlite::Error> {
    let tx = begin_transaction(conn)?;
    let n = batches.len();
    for i in 0..n
        invariant
            n == batches@.len(),
    {
        sqlite_execute_batch(transaction_connection(&tx), batches[i])?;
    }
    commit(tx)
}

/// Reads one column of `row` as `kind`.
fn read_column(row: &rusqlite::Row<'_>, idx: usize, kind: ColumnKind) -> (r: Result<
    Column,
    rusqlite::Error,
>)
    ensures
        r matches Ok(c) ==> fits(column_view(c), kind),
{
    match kind {
        ColumnKind::Text => Ok(Column::Text(column_text(row, idx)?)),
        ColumnKind::Integer => Ok(Column::Integer(column_i64(row, idx)?)),
        ColumnKind::OptText => match column_opt_text(row, idx)? {
            Some(s) => Ok(Column::Text(s)),
            None => Ok(Column::Null),
        },
        ColumnKind::OptInteger => match column_opt_i64(row, idx)? {
            Some(i) => Ok(Column::Integer(i)),
            None => Ok(Column::Null),
        },
    }
}

/// Runs the query `sql` and reads every row its cursor yields until the
/// cursor reports the end, each column read as `shape` says, and records
/// the exchange in `journal`: the rows as they were fetched, `None` when a
/// step failed. The loop leaves only at the cursor's end or at a failure.
fn read_rows(
    conn: &rusqlite::Connection,
    sql: &str,
    params: Vec<SqlParam>,
    shape: &Vec<ColumnKind>,
    journal: &mut Ghost<Seq<Exchange>>,
) -> (r: Result<Vec<Vec<Column>>, rusqlite::Error>)
    ensures
        final(journal)@ == old(journal)@.push(
            Exchange::Query { sql: sql@, params: params_view(params@), rows: rows_answer(r) },
        ),
        r matches Ok(rows) ==> rows_fit(rows_view(rows@), shape@),
{
    let ghost failed = Exchange::Query { sql: sql@, params: params_view(params@), rows: None };
    let ghost bound = params_view(params@);
    let mut stmt = match prepare(conn, sql) {
        Ok(s) => s,
        Err(e) => {
            *journal = Ghost(journal@.push(failed));
            return Err(e);
        },
    };
    let mut rows = match query(&mut stmt, params) {
        Ok(rows) => rows,
        Err(e) => {
            *journal = Ghost(journal@.push(failed));
            return Err(e);
        },
    };
    let mut out: Vec<Vec<Column>> = Vec::new();
    let ghost mut fetched: Seq<Seq<ColumnView>> = Seq::empty();
    let ghost mut ended = false;
    loop
        invariant_except_break
            !ended,
        invariant
            journal@ == old(journal)@,
            failed == (Exchange::Query { sql: sql@, params: bound, rows: None }),
            bound == params_view(params@),
            rows_view(out@) == fetched,
            rows_fit(fetched, shape@),
        ensures
            ended,
            journal@ == old(journal)@,
            rows_view(out@) == fetched,
            rows_fit(fetched, shape@),
        decreases usize::MAX - out@.len(),
    {
        match next_row(&mut rows) {
            Err(e) => {
                *journal = Ghost(journal@.push(failed));
                return Err(e);
            },
            Ok(None) => {
                proof {
                    ended = true;
                }
                break ;
            },
            Ok(Some(row)) => {
                let mut cols: Vec<Column> = Vec::new();
                let width = shape.len();
                for i in 0..width
                    invariant
                        width == shape@.len(),
                        cols@.len() == i,
                        journal@ == old(journal)@,
                        failed == (Exchange::Query { sql: sql@, params: bound, rows: None }),
                        bound == params_view(params@),
                        forall|k: int| 0 <= k < i ==> fits(#[trigger] column_view(cols@[k]), shape@[k]),
                {
                    match read_column(row, i, shape[i]) {
                        Ok(c) => cols.push(c),
                        Err(e) => {
                            *journal = Ghost(journal@.push(failed));
                            return Err(e);
                        },
                    }
                }
                assert(row_fits(row_view(cols@), shape@));
                proof {
                    fetched = fetched.push(row_view(cols@));
                }
                let ghost before = out@;
                out.push(cols);
                assert(rows_view(out@) =~= rows_view(before).push(row_view(out@.last()@)));
                assert(out@.len() == out.len());
            },
        }
    }
    *journal = Ghost(journal@.push(Exchange::Query { sql: sql@, params: bound, rows: Some(fetched) }));
    Ok(out)
}

/// Calls `Connection::execute`: runs one statement with `params` bound in
/// order and returns the number of rows it changed.
#[verifier::external_body]
fn sqlite_execute(conn: &rusqlite::Connection, sql: &str, params: Vec<SqlParam>) -> Result<
    usize,
    rusqlite::Error,
> {
    conn.execute(sql, rusqlite::params_from_iter(params.into_iter().map(|p| match p {
        SqlParam::Text(s) => rusqlite::types::Value::Text(s),
        SqlParam::Integer(i) => rusqlite::types::Value::Integer(i),
        SqlParam::Null => rusqlite::types::Value::Null,
    })))
}

/// Calls `Connection::execute_batch`: runs the `;`-separated statements of
/// `sql` one after the other, stopping at the first failure.
#[verifier::external_body]
fn sqlite_execute_batch(conn: &rusqlite::Connection, sql: &str) -> Result<(), rusqlite::Error> {
    conn.execute_batch(sql)
}

/// Calls `Connection::prepare`.
#[verifier::external_body]
fn prepare<'conn>(conn: &'conn rusqlite::Connection, sql: &str) -> Result<
    rusqlite::Statement<'conn>,
    rusqlite::Error,
> {
    conn.prepare(sql)
}

/// Calls `Statement::query` with `params` bound in order.
#[verifier::external_body]
fn query<'a, 'conn>(stmt: &'a mut rusqlite::Statement<'conn>, params: Vec<SqlParam>) -> Result<
    rusqlite::Rows<'a>,
    rusqlite::Error,
> {
    stmt.query(rusqlite::params_from_iter(params.into_iter().map(|p| match p {
        SqlParam::Text(s) => rusqlite::types::Value::Text(s),
        SqlParam::Integer(i) => rusqlite::types::Value::Integer(i),
        SqlParam::Null => rusqlite::types::Value::Null,
    })))
}

/// Calls `Rows::next`: the next result row, or `None` after the last one.
#[verifier::external_body]
fn next_row<'a, 'stmt>(rows: &'a mut rusqlite::Rows<'stmt>) -> Result<
    Option<&'a rusqlite::Row<'stmt>>,
    rusqlite::Error,
> {
    rows.next()
}

/// Calls `Row::get` for column `idx` as text (an error when the column
/// holds anything but text).
#[verifier::external_body]
fn column_text(row: &rusqlite::Row<'_>, idx: usize) -> Result<String, rusqlite::Error> {
    row.get(idx)
}

/// Calls `Row::get` for column `idx` as an integer (an error when the
/// column holds anything but an integer).
#[verifier::external_body]
fn column_i64(row: &rusqlite::Row<'_>, idx: usize) -> Result<i64, rusqlite::Error> {
    row.get(idx)
}

/// Calls `Row::get` for column `idx` as text or NULL.
#[verifier::external_body]
fn column_opt_text(row: &rusqlite::Row<'_>, idx: usize) -> Result<
    Option<String>,
    rusqlite::Error,
> {
    row.get(idx)
}

/// Calls `Row::get` for column `idx` as an integer or NULL.
#[verifier::external_body]
fn column_opt_i64(row: &rusqlite::Row<'_>, idx: usize) -> Result<
    Option<i64>,
    rusqlite::Error,
> {
    row.get(idx)
}

/// Calls `Connection::last_insert_rowid`: the rowid of the latest
/// successful `INSERT` on this connection.
#[verifier::external_body]
fn sqlite_last_insert_rowid(conn: &rusqlite::Connection) -> i64 {
    conn.last_insert_rowid()
}

/// Calls `Connection::transaction`, which begins a deferred transaction
/// that rolls back unless it is committed.
#[verifier::external_body]
fn begin_transaction(conn: &mut rusqlite::Connection) -> Result<
    rusqlite::Transaction<'_>,
    rusqlite::Error,
> {
    conn.transaction()
}

/// Calls `Transaction`'s `Deref`, the connection the transaction runs on.
#[verifier::external_body]
fn transaction_connection<'a>(tx: &'a rusqlite::Transaction<'_>) -> &'a rusqlite::Connection {
    tx
}

/// Calls `Transaction::commit`.
#[verifier::external_body]
fn commit(tx: rusqlite::Transaction<'_>) -> Result<(), rusqlite::Error> {
    tx.commit()
}

/// The error `Connection::query_row` gives for a query without rows:
/// `rusqlite::Error::QueryReturnedNoRows`.
#[verifier::external_body]
pub(crate) fn no_rows_error() -> rusqlite::Error {
    rusqlite::Error::QueryReturnedNoRows
}

} // verus!
