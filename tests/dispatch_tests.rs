use datasink::dispatch::{
    add_database_reply, batch_insert_reply, check_add_database, create_table_reply, db_error_to_status,
    delete_reply, drop_table_reply, get_database, insert_reply, server_database_url, server_status,
    update_reply, StatusCode,
};
use datasink::registry::DatabaseManager;
use datasink::storage::DatabaseError;

#[test]
fn backend_errors_map_to_one_kind_each() {
    let s = db_error_to_status(DatabaseError::TableAlreadyExists("t".into()));
    assert_eq!(s.code, StatusCode::AlreadyExists);
    assert_eq!(s.message, "Table 't' already exists");
    let s = db_error_to_status(DatabaseError::TableNotFound("t".into()));
    assert_eq!(s.code, StatusCode::NotFound);
    assert_eq!(s.message, "Table 't' not found");
    let s = db_error_to_status(DatabaseError::QueryError("No values provided".into()));
    assert_eq!(s.code, StatusCode::InvalidArgument);
    assert_eq!(s.message, "No values provided");
    let s = db_error_to_status(DatabaseError::ConnectionError("socket".into()));
    assert_eq!(s.code, StatusCode::Unavailable);
    assert_eq!(s.message, "Database connection unavailable");
    let s = db_error_to_status(DatabaseError::DatabaseError("boom".into()));
    assert_eq!(s.code, StatusCode::Internal);
    assert_eq!(s.message, "Database error: boom");
}

#[test]
fn unresolvable_targets() {
    let empty: DatabaseManager<u8> = DatabaseManager::new();
    let e = get_database(&empty, "").unwrap_err();
    assert_eq!(e.code, StatusCode::Unavailable);
    assert_eq!(e.message, "No database connections available");
    let e = get_database(&empty, "sales").unwrap_err();
    assert_eq!(e.code, StatusCode::NotFound);
    assert_eq!(e.message, "Database 'sales' not found");

    let mut m: DatabaseManager<u8> = DatabaseManager::new();
    let _ = m.add_database::<()>("main".into(), "sqlite://m.db".into(), 5, Ok(9));
    assert_eq!(get_database(&m, "").ok(), Some(&9));
    assert_eq!(get_database(&m, "main").ok(), Some(&9));
}

#[test]
fn replies() {
    assert_eq!(create_table_reply("t", Ok(())).unwrap().message, "Table 't' created successfully");
    assert_eq!(drop_table_reply("t", Ok(())).unwrap().message, "Table 't' dropped successfully");
    let r = insert_reply(Ok(42)).unwrap();
    assert!(r.success);
    assert_eq!(r.inserted_id, 42);
    assert_eq!(r.message, "Insert successful");
    let r = update_reply(Ok(3)).unwrap();
    assert_eq!(r.message, "3 rows updated");
    assert_eq!(r.affected_rows, 3);
    assert_eq!(delete_reply(Ok(0)).unwrap().message, "0 rows deleted");
    let r = batch_insert_reply(Ok(1234567)).unwrap();
    assert_eq!(r.message, "1234567 rows inserted");
    assert_eq!(r.inserted_count, 1234567);
    let e = create_table_reply("t", Err(DatabaseError::TableAlreadyExists("t".into()))).unwrap_err();
    assert_eq!(e.code, StatusCode::AlreadyExists);
    let e = batch_insert_reply(Err(DatabaseError::TransactionError("x".into()))).unwrap_err();
    assert_eq!(e.code, StatusCode::Internal);
}

#[test]
fn add_database_requests() {
    let r = check_add_database("", "sqlite://x.db").unwrap_err();
    assert!(!r.success);
    assert_eq!(r.message, "Database name cannot be empty");
    assert_eq!(check_add_database("x", "sqlite://x.db").unwrap(), "sqlite://x.db?mode=rwc");
    assert_eq!(check_add_database("x", "sqlite://x.db?mode=ro").unwrap(), "sqlite://x.db?mode=ro");
    assert_eq!(check_add_database("x", "postgres://h/db").unwrap(), "postgres://h/db");
    let ok = add_database_reply("x", Ok(()));
    assert!(ok.success);
    assert_eq!(ok.message, "Database 'x' added successfully");
    let bad = add_database_reply("x", Err(DatabaseError::ConnectionError("no file".into())));
    assert!(!bad.success);
    assert_eq!(bad.message, "Failed to add database 'x': Connection error: no file");
}

#[test]
fn status_and_server_url() {
    let mut m: DatabaseManager<u8> = DatabaseManager::new();
    let _ = m.add_database::<()>("default".into(), "sqlite://d.db".into(), 1640995200, Ok(1));
    let s = server_status(&m, 17);
    assert!(s.server_running);
    assert_eq!(s.uptime_seconds, 17);
    assert_eq!(s.databases.len(), 1);
    assert_eq!(s.databases[0].name, "default");
    assert_eq!(s.databases[0].connection_time, 1640995200);
    assert_eq!(s.databases[0].active_connections, 1);
    assert_eq!(server_database_url("sqlite://a.db"), "sqlite://a.db?mode=rwc");
    assert_eq!(server_database_url("sqlite://a.db?mode=ro"), "sqlite://a.db?mode=ro");
}
