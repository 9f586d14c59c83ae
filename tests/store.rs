use panorama::sqlite_sample::sqlite_c::{SqliteCrud, StoreError};
use panorama::sqlite_sample::users_po::User;
use panorama::use_sqlite::{
    create_table, init_global_db, insert_data, login_verdict, query_data, table_missing, use_sqlite, LoginVerdict,
};

fn memory_db() -> SqliteCrud {
    match init_global_db(":memory:") {
        Ok(db) => db,
        Err(_) => panic!("an in-memory database opens"),
    }
}

#[test]
fn round_trip_through_the_key_value_table() {
    let db = memory_db();
    match use_sqlite(&db) {
        Ok(v) => assert_eq!(v, "aaa_value"),
        Err(_) => panic!("the stored value reads back"),
    }
    assert!(insert_data(&db, "aaa", "other").is_ok());
    assert_eq!(query_data(&db, "aaa").ok().unwrap(), "other");
    assert!(create_table(&db).is_ok());
    assert!(query_data(&db, "missing").is_err());
    assert!(db.close().is_ok());
}

#[test]
fn missing_connection_is_reported() {
    let db = SqliteCrud { conn: None };
    assert!(matches!(create_table(&db), Err(StoreError::NoConnection)));
    assert!(matches!(query_data(&db, "k"), Err(StoreError::NoConnection)));
    assert!(matches!(use_sqlite(&db), Err(StoreError::NoConnection)));
    let u = User::new(1, "a".to_string(), 2).ok().unwrap();
    assert!(matches!(u.query_users(&db), Err(StoreError::NoConnection)));
}

#[test]
fn table_is_created_only_when_missing() {
    assert!(table_missing(0));
    assert!(!table_missing(1));
}

#[test]
fn users_crud() {
    let db = memory_db();
    let u = User::new(0, "admin".to_string(), 40).ok().unwrap();
    assert_eq!(u.id, 0);
    assert_eq!(u.name, "admin");
    assert_eq!(u.age, 40);
    assert!(u.init_table(&db).is_ok());
    assert!(u.insert_user(&db, "Alice", 30).is_ok());
    assert!(u.insert_user(&db, "Bob", 25).is_ok());
    let all = u.query_users(&db).ok().unwrap();
    assert_eq!(all.len(), 2);
    assert_eq!(all[0].name, "Alice");
    assert_eq!(all[1].age, 25);
    assert!(u.update_user(&db, all[0].id, "Carol", 31).is_ok());
    assert!(u.delete_user(&db, all[1].id).is_ok());
    let left = u.query_users(&db).ok().unwrap();
    assert_eq!(left.len(), 1);
    assert_eq!(left[0].name, "Carol");
    assert_eq!(left[0].age, 31);
}

#[test]
fn login_verdicts() {
    assert_eq!(login_verdict(&Ok("aaa_value".to_string())), LoginVerdict::Accepted);
    assert_eq!(login_verdict(&Ok("zzz".to_string())), LoginVerdict::Unexpected);
    assert_eq!(login_verdict(&Ok(String::new())), LoginVerdict::Empty);
    assert_eq!(login_verdict(&Err(StoreError::NoConnection)), LoginVerdict::Failed);
    assert_eq!(LoginVerdict::Accepted.as_str(), "ok");
    assert_eq!(LoginVerdict::Empty.as_str(), "null.");
    assert_eq!(LoginVerdict::Failed.as_str(), "failed.");
    assert_eq!(LoginVerdict::Unexpected.as_str(), "unexpected");
}

#[test]
fn rows_become_users_in_order() {
    let users = panorama::sqlite_sample::users_po::users_from_rows(vec![(7, "Ann".to_string(), 30), (2, "Bo".to_string(), 41)]);
    assert_eq!(users.len(), 2);
    assert_eq!((users[0].id, users[0].name.as_str(), users[0].age), (7, "Ann", 30));
    assert_eq!((users[1].id, users[1].name.as_str(), users[1].age), (2, "Bo", 41));
    assert!(panorama::sqlite_sample::users_po::users_from_rows(Vec::new()).is_empty());
}
