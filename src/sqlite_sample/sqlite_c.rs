use vstd::prelude::*;

verus! {

#[verifier::external_type_specification]
#[verifier::external_body]
pub struct ExConnection(rusqlite::Connection);

#[verifier::external_type_specification]
#[verifier::external_body]
pub struct ExSqlError(rusqlite::Error);

/// A value bound to a `?N` placeholder of a statement.
pub enum SqlParam {
    Text(String),
    Integer(i64),
}

/// Why a store operation failed.
pub enum StoreError {
    /// The handle holds no open connection.
    NoConnection,
    /// SQLite refused the statement or the file.
    Sql(rusqlite::Error),
}

/// Relies on `rusqlite::Connection::open`: opens, or creates, the database
/// file at `path`. Whether it succeeds depends on the file system.
#[verifier::external_body]
fn open_connection(path: &str) -> (r: Result<rusqlite::Connection, rusqlite::Error>) {
    rusqlite::Connection::open(path)
}

/// Relies on `rusqlite::Connection::close`, which hands the connection back
/// with the error when closing fails; only the error is kept.
#[verifier::external_body]
fn close_connection(conn: rusqlite::Connection) -> (r: Result<(), rusqlite::Error>) {
    conn.close().map_err(|(_conn, e)| e)
}

/// Relies on `rusqlite::Connection::execute`: runs one statement with `params`
/// bound to `?1`, `?2`, ... in order.
#[verifier::external_body]
pub(crate) fn execute(conn: &rusqlite::Connection, sql: &str, params: &Vec<SqlParam>) -> (r: Result<
    usize,
    rusqlite::Error,
>) {
    let values = params.iter().map(
        |p| match p {
            SqlParam::Text(s) => rusqlite::types::Value::Text(s.clone()),
            SqlParam::Integer(i) => rusqlite::types::Value::Integer(*i),
        },
    );
    conn.execute(sql, rusqlite::params_from_iter(values))
}

/// Relies on `rusqlite::Connection::query_row`, reading the first column of
/// the first row as an integer.
#[verifier::external_body]
pub(crate) fn query_integer(conn: &rusqlite::Connection, sql: &str) -> (r: Result<
    i64,
    rusqlite::Error,
>) {
    conn.query_row(sql, [], |row| row.get(0))
}

/// Relies on `rusqlite::Connection::query_row`, with one text parameter bound
/// to `?1`, reading the first column of the first row as text.
#[verifier::external_body]
pub(crate) fn query_text(conn: &rusqlite::Connection, sql: &str, param: &str) -> (r: Result<
    String,
    rusqlite::Error,
>) {
    conn.query_row(sql, [param], |row| row.get(0))
}

/// Relies on `rusqlite::Connection::prepare` and `Statement::query_map`:
/// the first three columns of every row, as an integer, a text and an integer.
#[verifier::external_body]
pub(crate) fn query_triples(conn: &rusqlite::Connection, sql: &str) -> (r: Result<
    Vec<(i32, String, i32)>,
    rusqlite::Error,
>) {
    let mut stmt = conn.prepare(sql)?;
    let rows = stmt.query_map([], |row| Ok((row.get(0)?, row.get(1)?, row.get(2)?)))?;
    rows.collect()
}

/// The handle on one SQLite database.
pub struct SqliteCrud {
    pub conn: Option<rusqlite::Connection>,
}

impl SqliteCrud {
    /// Opens the database at `db_path`.
    pub fn new(db_path: &str) -> (r: Result<SqliteCrud, StoreError>)
        ensures
            r matches Ok(db) ==> db.conn is Some,
            r is Err ==> r matches Err(StoreError::Sql(_)),
    {
        match open_connection(db_path) {
            Ok(conn) => Ok(SqliteCrud { conn: Some(conn) }),
            Err(e) => Err(StoreError::Sql(e)),
        }
    }

    /// The open connection, or `NoConnection`.
    pub fn connection(&self) -> (r: Result<&rusqlite::Connection, StoreError>)
        ensures
            self.conn is None <==> r matches Err(StoreError::NoConnection),
            self.conn matches Some(c) ==> r == Ok::<&rusqlite::Connection, StoreError>(&c),
    {
        match &self.conn {
            Some(c) => Ok(c),
            None => Err(StoreError::NoConnection),
        }
    }

    /// Closes the connection, if any, and reports a failure to close.
    pub fn close(self) -> (r: Result<(), StoreError>)
        ensures
            self.conn is None ==> r is Ok,
            r is Err ==> r matches Err(StoreError::Sql(_)),
    {
        match self.conn {
            Some(c) => match close_connection(c) {
                Ok(()) => Ok(()),
                Err(e) => Err(StoreError::Sql(e)),
            },
            None => Ok(()),
        }
    }
}

} // verus!
