use vstd::prelude::*;
use crate::sqlite_sample::sqlite_c::{
    SqliteCrud,
    SqlParam,
    StoreError,
    execute,
    query_integer,
    query_text,
};

verus! {

/// Opens the store that the key/value helpers below work on. The handle is
/// the caller's to pass around; there is no process-wide instance.
pub fn init_global_db(db_path: &str) -> (r: Result<SqliteCrud, StoreError>)
    ensures
        r matches Ok(db) ==> db.conn is Some,
        r is Err ==> r matches Err(StoreError::Sql(_)),
{
    SqliteCrud::new(db_path)
}

/// The table must be created exactly when the catalogue lists none of its name.
pub fn table_missing(count: i64) -> (b: bool)
    ensures
        b == (count == 0),
{
    count == 0
}

/// Creates `table_test` unless the catalogue already lists it.
pub fn create_table(db: &SqliteCrud) -> (r: Result<(), StoreError>)
    ensures
        db.conn is None <==> r matches Err(StoreError::NoConnection),
{
    let conn = db.connection()?;
    let count = match query_integer(
        conn,
        "SELECT count(*) FROM sqlite_master WHERE type='table' AND name='table_test';",
    ) {
        Ok(n) => n,
        Err(e) => return Err(StoreError::Sql(e)),
    };
    if table_missing(count) {
        let params: Vec<SqlParam> = Vec::new();
        match execute(
            conn,
            "CREATE TABLE table_test (
                    id INTEGER PRIMARY KEY AUTOINCREMENT,
                    key TEXT NOT NULL,
                    value TEXT NULL
                )",
            &params,
        ) {
            Ok(_) => {},
            Err(e) => return Err(StoreError::Sql(e)),
        }
    }
    Ok(())
}

/// Stores `value` under `key`, replacing whatever the key held.
pub fn insert_data(db: &SqliteCrud, key: &str, value: &str) -> (r: Result<(), StoreError>)
    ensures
        db.conn is None <==> r matches Err(StoreError::NoConnection),
{
    let conn = db.connection()?;
    let mut by_key: Vec<SqlParam> = Vec::new();
    by_key.push(SqlParam::Text(key.to_owned()));
    match execute(conn, "delete from table_test where key = ?1", &by_key) {
        Ok(_) => {},
        Err(e) => return Err(StoreError::Sql(e)),
    }
    let mut row: Vec<SqlParam> = Vec::new();
    row.push(SqlParam::Text(key.to_owned()));
    row.push(SqlParam::Text(value.to_owned()));
    match execute(conn, "INSERT INTO table_test (key, value) VALUES (?1, ?2)", &row) {
        Ok(_) => Ok(()),
        Err(e) => Err(StoreError::Sql(e)),
    }
}

/// The value stored under `key`.
pub fn query_data(db: &SqliteCrud, key: &str) -> (r: Result<String, StoreError>)
    ensures
        db.conn is None <==> r matches Err(StoreError::NoConnection),
{
    let conn = db.connection()?;
    match query_text(conn, "SELECT value FROM table_test WHERE key = ?1", key) {
        Ok(v) => Ok(v),
        Err(e) => Err(StoreError::Sql(e)),
    }
}

/// Creates the table, stores `aaa_value` under `aaa`, and reads it back.
pub fn use_sqlite(db: &SqliteCrud) -> (r: Result<String, StoreError>)
    ensures
        db.conn is None <==> r matches Err(StoreError::NoConnection),
{
    create_table(db)?;
    insert_data(db, "aaa", "aaa_value")?;
    query_data(db, "aaa")
}

pub open spec fn expected_value() -> Seq<char> {
    seq!['a', 'a', 'a', '_', 'v', 'a', 'l', 'u', 'e']
}

/// How a login lookup ended.
#[derive(Clone, Copy, Debug, PartialEq, Eq, Structural)]
pub enum LoginVerdict {
    /// The stored value is the expected one.
    Accepted,
    /// A value is stored, but not the expected one.
    Unexpected,
    /// The stored value is empty.
    Empty,
    /// The lookup failed.
    Failed,
}

fn same_text(a: &str, b: &str) -> (r: bool)
    ensures
        r == (a@ == b@),
{
    let n = a.unicode_len();
    if n != b.unicode_len() {
        return false;
    }
    let mut i: usize = 0;
    while i < n
        invariant
            n == a@.len(),
            n == b@.len(),
            i <= n,
            forall|j: int| 0 <= j < i ==> a@[j] == b@[j],
        decreases n - i,
    {
        if a.get_char(i) != b.get_char(i) {
            return false;
        }
        i = i + 1;
    }
    assert(a@ =~= b@);
    true
}

/// Judges the result of looking up a user's value.
pub fn login_verdict(lookup: &Result<String, StoreError>) -> (v: LoginVerdict)
    ensures
        lookup is Err ==> v == LoginVerdict::Failed,
        lookup matches Ok(d) ==> v == if d@.len() == 0 {
            LoginVerdict::Empty
        } else if d@ == expected_value() {
            LoginVerdict::Accepted
        } else {
            LoginVerdict::Unexpected
        },
{
    match lookup {
        Ok(d) => {
            if d.as_str().unicode_len() == 0 {
                LoginVerdict::Empty
            } else {
                let same = same_text(d.as_str(), "aaa_value");
                proof {
                    reveal_strlit("aaa_value");
                    assert("aaa_value"@ =~= expected_value());
                }
                if same {
                    LoginVerdict::Accepted
                } else {
                    LoginVerdict::Unexpected
                }
            }
        },
        Err(_) => LoginVerdict::Failed,
    }
}

impl LoginVerdict {
    /// The text the login endpoint answers with.
    pub fn as_str(&self) -> (s: &'static str)
        ensures
            *self == LoginVerdict::Accepted ==> s@ == seq!['o', 'k'],
            *self == LoginVerdict::Unexpected ==> s@ == seq!['u', 'n', 'e', 'x', 'p', 'e', 'c', 't', 'e', 'd'],
            *self == LoginVerdict::Empty ==> s@ == seq!['n', 'u', 'l', 'l', '.'],
            *self == LoginVerdict::Failed ==> s@ == seq!['f', 'a', 'i', 'l', 'e', 'd', '.'],
    {
        proof {
            reveal_strlit("ok");
            reveal_strlit("unexpected");
            reveal_strlit("null.");
            reveal_strlit("failed.");
        }
        match self {
            LoginVerdict::Accepted => "ok",
            LoginVerdict::Unexpected => "unexpected",
            LoginVerdict::Empty => "null.",
            LoginVerdict::Failed => "failed.",
        }
    }
}

} // verus!
