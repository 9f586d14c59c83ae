use vstd::prelude::*;
use crate::sqlite_sample::sqlite_c::{SqliteCrud, SqlParam, StoreError, execute, query_triples};

verus! {

/// One row of the `users` table.
pub struct User {
    pub id: i32,
    pub name: String,
    pub age: i32,
}

/// Runs one statement on the handle's connection.
fn run_statement(db: &SqliteCrud, sql: &str, params: &Vec<SqlParam>) -> (r: Result<(), StoreError>)
    ensures
        db.conn is None <==> r matches Err(StoreError::NoConnection),
{
    let conn = db.connection()?;
    match execute(conn, sql, params) {
        Ok(_) => Ok(()),
        Err(e) => Err(StoreError::Sql(e)),
    }
}

/// One user per `(id, name, age)` row, in the order of the rows.
pub fn users_from_rows(rows: Vec<(i32, String, i32)>) -> (users: Vec<User>)
    ensures
        users@.len() == rows@.len(),
        forall|i: int|
            0 <= i < rows@.len() ==> {
                &&& (#[trigger] users@[i]).id == rows@[i].0
                &&& users@[i].name == rows@[i].1
                &&& users@[i].age == rows@[i].2
            },
{
    let ghost all = rows@;
    let mut users: Vec<User> = Vec::new();
    let mut rest = rows;
    while rest.len() > 0
        invariant
            users@.len() + rest@.len() == all.len(),
            rest@ == all.skip(users@.len() as int),
            forall|i: int|
                0 <= i < users@.len() ==> {
                    &&& (#[trigger] users@[i]).id == all[i].0
                    &&& users@[i].name == all[i].1
                    &&& users@[i].age == all[i].2
                },
        decreases rest.len(),
    {
        let (id, name, age) = rest.remove(0);
        proof {
            assert(all[users@.len() as int] == all.skip(users@.len() as int)[0]);
        }
        users.push(User { id, name, age });
        proof {
            assert(rest@ =~= all.skip(users@.len() as int));
        }
    }
    proof {
        assert(all.skip(users@.len() as int).len() == 0);
    }
    users
}

impl User {
    pub fn new(id: i32, name: String, age: i32) -> (r: Result<User, StoreError>)
        ensures
            r matches Ok(u) && u.id == id && u.name == name && u.age == age,
    {
        Ok(User { id, name, age })
    }

    /// Creates the `users` table when it does not exist yet.
    pub fn init_table(&self, db: &SqliteCrud) -> (r: Result<(), StoreError>)
        ensures
            db.conn is None <==> r matches Err(StoreError::NoConnection),
    {
        let params: Vec<SqlParam> = Vec::new();
        run_statement(
            db,
            "CREATE TABLE IF NOT EXISTS users (
                    id INTEGER PRIMARY KEY AUTOINCREMENT,
                    name TEXT NOT NULL,
                    age INTEGER NOT NULL
                )",
            &params,
        )
    }

    /// Inserts one user; the id is assigned by SQLite.
    pub fn insert_user(&self, db: &SqliteCrud, name: &str, age: i32) -> (r: Result<(), StoreError>)
        ensures
            db.conn is None <==> r matches Err(StoreError::NoConnection),
    {
        let mut params: Vec<SqlParam> = Vec::new();
        params.push(SqlParam::Text(name.to_owned()));
        params.push(SqlParam::Integer(age as i64));
        run_statement(db, "INSERT INTO users (name, age) VALUES (?1, ?2)", &params)
    }

    /// All users, in the order SQLite returns them.
    pub fn query_users(&self, db: &SqliteCrud) -> (r: Result<Vec<User>, StoreError>)
        ensures
            db.conn is None <==> r matches Err(StoreError::NoConnection),
    {
        let conn = db.connection()?;
        let rows = match query_triples(conn, "SELECT id, name, age FROM users") {
            Ok(rows) => rows,
            Err(e) => return Err(StoreError::Sql(e)),
        };
        Ok(users_from_rows(rows))
    }

    /// Sets the name and age of the user with id `id`.
    pub fn update_user(&self, db: &SqliteCrud, id: i32, name: &str, age: i32) -> (r: Result<(), StoreError>)
        ensures
            db.conn is None <==> r matches Err(StoreError::NoConnection),
    {
        let mut params: Vec<SqlParam> = Vec::new();
        params.push(SqlParam::Text(name.to_owned()));
        params.push(SqlParam::Integer(age as i64));
        params.push(SqlParam::Integer(id as i64));
        run_statement(db, "UPDATE users SET name = ?1, age = ?2 WHERE id = ?3", &params)
    }

    /// Deletes the user with id `id`.
    pub fn delete_user(&self, db: &SqliteCrud, id: i32) -> (r: Result<(), StoreError>)
        ensures
            db.conn is None <==> r matches Err(StoreError::NoConnection),
    {
        let mut params: Vec<SqlParam> = Vec::new();
        params.push(SqlParam::Integer(id as i64));
        run_statement(db, "DELETE FROM users WHERE id = ?1", &params)
    }
}

} // verus!
