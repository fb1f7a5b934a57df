//! The database access object: a single long-lived SQLite connection kept
//! behind a mutual-exclusion lock, with eager, all-or-nothing decoding of
//! query results into typed records.

use std::sync::Arc;
use std::sync::Mutex;

use vstd::prelude::*;

use crate::row::ColumnValue;
use crate::row::DecodeError;
use crate::row::FromDatabaseRow;
use crate::row::ResultRow;
use crate::row::ValueView;

verus! {

/// Why a database call failed.
#[derive(Clone, Copy, Debug, PartialEq, Eq, Structural)]
pub enum DbError {
    /// The store could not be opened.
    Connection,
    /// Statement preparation, execution or row iteration failed.
    Statement,
    /// A result row could not be decoded; the whole call is aborted and
    /// no partial results are returned.
    Decode(DecodeError),
}

#[verifier::external_type_specification]
#[verifier::external_body]
pub struct ExConnection(rusqlite::Connection);

#[verifier::external_type_specification]
#[verifier::external_body]
pub struct ExSqliteRow<'a>(rusqlite::Row<'a>);

#[verifier::external_type_specification]
#[verifier::external_body]
#[verifier::reject_recursive_types(T)]
pub struct ExMutex<T: ?Sized>(Mutex<T>);

/// A handle on the backing relational store, shared across threads: the
/// connection is acquired once and guarded by a lock, so at most one
/// statement prepare-execute-iterate cycle runs at a time against it.
#[derive(Clone)]
pub struct Database {
    conn: Arc<Mutex<rusqlite::Connection>>,
}

/// The stored value of each named column of one result row, in declared
/// order. Integer, text and blob values are kept as they are; a
/// real-valued column, an unreadable column, or text that is not UTF-8
/// becomes `Null`, which the record decoders treat as absent.
///
/// Relies on rusqlite::Row::get_ref, whose result carries the stored
/// value of the column at the given index.
#[verifier::external_body]
fn row_columns<'a>(row: &rusqlite::Row<'a>, names: &Vec<String>) -> (out: ResultRow)
    ensures
        out@.len() == names@.len(),
        forall|i: int| 0 <= i < names@.len() ==> out@[i].0 == names@[i]@,
{
    let mut columns: Vec<(String, ColumnValue)> = Vec::new();
    for (i, name) in names.iter().enumerate() {
        let value = match row.get_ref(i) {
            Ok(rusqlite::types::ValueRef::Integer(n)) => ColumnValue::Integer(n),
            Ok(rusqlite::types::ValueRef::Text(t)) => match std::str::from_utf8(t) {
                Ok(s) => ColumnValue::Text(s.to_string()),
                Err(_) => ColumnValue::Null,
            },
            Ok(rusqlite::types::ValueRef::Blob(b)) => ColumnValue::Blob(b.to_vec()),
            _ => ColumnValue::Null,
        };
        columns.push((name.clone(), value));
    }
    ResultRow { columns }
}

/// The column views of a sequence of materialized rows.
pub open spec fn row_views(rows: Seq<ResultRow>) -> Seq<Seq<(Seq<char>, ValueView)>> {
    rows.map_values(|r: ResultRow| r@)
}

/// Decoding a whole result sequence: every row must decode into a record;
/// the first failure aborts the whole decode with its error, so there are
/// never partial results.
pub open spec fn spec_decode_rows<T: FromDatabaseRow>(
    rows: Seq<Seq<(Seq<char>, ValueView)>>,
) -> Result<Seq<T::V>, DecodeError>
    decreases rows.len(),
{
    if rows.len() == 0 {
        Ok(Seq::empty())
    } else {
        match spec_decode_rows::<T>(rows.drop_last()) {
            Ok(rest) => match T::spec_from_row(rows.last()) {
                Ok(v) => Ok(rest.push(v)),
                Err(e) => Err(e),
            },
            Err(e) => Err(e),
        }
    }
}

/// Once some prefix of the rows fails to decode, the whole sequence fails
/// with that same first error.
proof fn lemma_decode_err_persists<T: FromDatabaseRow>(
    rows: Seq<Seq<(Seq<char>, ValueView)>>,
    k: int,
)
    requires
        0 <= k <= rows.len(),
        spec_decode_rows::<T>(rows.take(k)) is Err,
    ensures
        spec_decode_rows::<T>(rows) == spec_decode_rows::<T>(rows.take(k)),
    decreases rows.len(),
{
    if k < rows.len() {
        assert(rows.drop_last().take(k) =~= rows.take(k));
        lemma_decode_err_persists::<T>(rows.drop_last(), k);
    } else {
        assert(rows.take(k) =~= rows);
    }
}

/// Decodes every materialized row into a record of type `T`: all of them,
/// or the first row's decode error and no partial results.
pub fn decode_rows<T: FromDatabaseRow>(rows: &Vec<ResultRow>) -> (r: Result<Vec<T>, DecodeError>)
    ensures
        match r {
            Ok(recs) => spec_decode_rows::<T>(row_views(rows@)) == Ok::<Seq<T::V>, DecodeError>(
                recs@.map_values(|t: T| t@),
            ),
            Err(e) => spec_decode_rows::<T>(row_views(rows@)) == Err::<Seq<T::V>, DecodeError>(e),
        },
{
    let mut out: Vec<T> = Vec::new();
    let n = rows.len();
    proof {
        assert(row_views(rows@).take(0) =~= Seq::<Seq<(Seq<char>, ValueView)>>::empty());
        assert(out@.map_values(|t: T| t@) =~= Seq::<T::V>::empty());
    }
    for i in 0..n
        invariant
            n == rows@.len(),
            out@.len() == i,
            spec_decode_rows::<T>(row_views(rows@).take(i as int)) == Ok::<
                Seq<T::V>,
                DecodeError,
            >(out@.map_values(|t: T| t@)),
    {
        let ghost prefix = out@.map_values(|t: T| t@);
        match T::from_row::<ResultRow>(&rows[i]) {
            Ok(v) => {
                out.push(v);
                proof {
                    assert(row_views(rows@).take(i + 1).drop_last() =~= row_views(rows@).take(
                        i as int,
                    ));
                    assert(row_views(rows@).take(i + 1).last() == rows@[i as int]@);
                    assert(out@.map_values(|t: T| t@) =~= prefix.push(v@));
                }
            },
            Err(e) => {
                proof {
                    assert(row_views(rows@).take(i + 1).drop_last() =~= row_views(rows@).take(
                        i as int,
                    ));
                    assert(row_views(rows@).take(i + 1).last() == rows@[i as int]@);
                    assert(spec_decode_rows::<T>(row_views(rows@).take(i + 1)) == Err::<
                        Seq<T::V>,
                        DecodeError,
                    >(e));
                    lemma_decode_err_persists::<T>(row_views(rows@), i + 1);
                }
                return Err(e);
            },
        }
    }
    proof {
        assert(row_views(rows@).take(n as int) =~= row_views(rows@));
    }
    Ok(out)
}

impl Database {
    /// Opens the SQLite store at `dsn`. A store that cannot be opened is
    /// a connection failure; nothing else is served from this handle then.
    ///
    /// Relies on rusqlite::Connection::open, which opens (creating it if
    /// absent) the database file at the given path.
    #[verifier::external_body]
    pub fn sqlite_open(dsn: &str) -> (r: Result<Database, DbError>) {
        match rusqlite::Connection::open(dsn) {
            Ok(conn) => Ok(Database { conn: Arc::new(Mutex::new(conn)) }),
            Err(_) => Err(DbError::Connection),
        }
    }

    /// Runs a statement expected to produce no typed rows (schema or DML);
    /// any store-level failure is a statement error.
    ///
    /// Relies on rusqlite: Connection::prepare compiles the statement and
    /// Statement::execute runs it. The lock serializes access to the one
    /// connection.
    #[verifier::external_body]
    pub fn execute(&self, query: &str) -> (r: Result<(), DbError>) {
        let guard = self.conn.lock().map_err(|_| DbError::Statement)?;
        let mut stmt = guard.prepare(query).map_err(|_| DbError::Statement)?;
        stmt.execute([]).map(|_| ()).map_err(|_| DbError::Statement)
    }

    /// Materializes every result row of a read-only query, eagerly, as
    /// plain named column values; what the rows hold is whatever the
    /// store returned. Preparation or iteration failure aborts the call.
    ///
    /// Relies on rusqlite: Connection::prepare compiles the statement,
    /// Statement::column_names gives the result column names in order,
    /// Statement::query and Rows::next iterate the result rows, and
    /// `row_columns` converts each row. The lock serializes access to
    /// the one connection.
    #[verifier::external_body]
    fn fetch_rows(&self, query: &str) -> (r: Result<Vec<ResultRow>, DbError>)
        ensures
            (match r {
                Ok(_) => true,
                Err(e) => e == DbError::Statement,
            }),
    {
        let guard = self.conn.lock().map_err(|_| DbError::Statement)?;
        let mut stmt = guard.prepare(query).map_err(|_| DbError::Statement)?;
        let names: Vec<String> = stmt.column_names().iter().map(|n| n.to_string()).collect();
        let mut rows = stmt.query([]).map_err(|_| DbError::Statement)?;
        let mut out: Vec<ResultRow> = Vec::new();
        loop {
            match rows.next() {
                Ok(Some(row)) => out.push(row_columns(row, &names)),
                Ok(None) => return Ok(out),
                Err(_) => return Err(DbError::Statement),
            }
        }
    }

    /// Runs a read-only query and decodes every result row into a record
    /// of type `T`, eagerly. Whatever rows the store returned, the call
    /// hands back exactly their decoding: all records, or the first
    /// decode error, or the statement failure — never partial results.
    pub fn select_all<T: FromDatabaseRow>(&self, query: &str) -> (r: Result<Vec<T>, DbError>)
        ensures
            match r {
                Ok(recs) => exists|rows: Seq<Seq<(Seq<char>, ValueView)>>|
                    spec_decode_rows::<T>(rows) == Ok::<Seq<T::V>, DecodeError>(
                        recs@.map_values(|t: T| t@),
                    ),
                Err(DbError::Decode(e)) => exists|rows: Seq<Seq<(Seq<char>, ValueView)>>|
                    spec_decode_rows::<T>(rows) == Err::<Seq<T::V>, DecodeError>(e),
                Err(_) => true,
            },
    {
        let rows = match self.fetch_rows(query) {
            Ok(rs) => rs,
            Err(e) => {
                return Err(e);
            },
        };
        match decode_rows::<T>(&rows) {
            Ok(recs) => {
                proof {
                    let ws = row_views(rows@);
                    assert(spec_decode_rows::<T>(ws) == Ok::<Seq<T::V>, DecodeError>(
                        recs@.map_values(|t: T| t@),
                    ));
                }
                Ok(recs)
            },
            Err(e) => {
                proof {
                    let ws = row_views(rows@);
                    assert(spec_decode_rows::<T>(ws) == Err::<Seq<T::V>, DecodeError>(e));
                }
                Err(DbError::Decode(e))
            },
        }
    }
}

} // verus!
