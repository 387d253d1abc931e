use datasink::columns::{ColumnDef, ColumnType};
use datasink::fields::FieldMap;
use datasink::storage::{
    affected_rows_result, build_create_table_sql, build_delete_sql, build_drop_table_sql,
    column_type_from_decl, column_type_to_sql, create_table_error, insert_statement,
    is_mutating_statement, update_statement, DatabaseError,
};
use datasink::value::DbValue;

fn col(name: &str, t: ColumnType, nullable: bool, pk: bool, unique: bool, d: Option<&str>) -> ColumnDef {
    ColumnDef {
        name: name.to_string(),
        col_type: t,
        nullable,
        primary_key: pk,
        unique,
        default_value: d.map(|s| s.to_string()),
    }
}

#[test]
fn create_table_sql_applies_constraints() {
    let cols = vec![
        col("id", ColumnType::Integer, false, true, true, None),
        col("name", ColumnType::Text, false, false, true, None),
        col("active", ColumnType::Boolean, true, false, false, Some("1")),
        col("at", ColumnType::Timestamp, true, false, false, None),
        col("data", ColumnType::Blob, true, false, false, None),
        col("score", ColumnType::Real, true, false, false, None),
    ];
    assert_eq!(
        build_create_table_sql("t", &cols),
        "CREATE TABLE t (id INTEGER PRIMARY KEY, name TEXT NOT NULL UNIQUE, active INTEGER DEFAULT 1, at INTEGER, data BLOB, score REAL)"
    );
    assert_eq!(build_create_table_sql("e", &vec![]), "CREATE TABLE e ()");
    assert_eq!(column_type_to_sql(&ColumnType::Boolean), "INTEGER");
}

#[test]
fn simple_statements() {
    assert_eq!(build_drop_table_sql("t"), "DROP TABLE IF EXISTS t");
    assert_eq!(build_delete_sql("t", "id = 1"), "DELETE FROM t WHERE id = 1");
}

#[test]
fn insert_and_update_statements_number_parameters() {
    let mut values = FieldMap::new();
    for i in 0..11 {
        values.insert(format!("c{}", i), DbValue::Integer(i));
    }
    let ins = insert_statement("t", values).unwrap();
    assert!(ins.sql.starts_with("INSERT INTO t (c0, c1, c2"));
    assert!(ins.sql.ends_with("?9, ?10, ?11)"));
    assert_eq!(ins.params.len(), 11);

    let mut values = FieldMap::new();
    values.insert("name".to_string(), DbValue::Text("b".into()));
    values.insert("n".to_string(), DbValue::Integer(3));
    let upd = update_statement("t", values, "id = 1").unwrap();
    assert_eq!(upd.sql, "UPDATE t SET name = ?1, n = ?2 WHERE id = 1");
    assert!(matches!(upd.params[1], DbValue::Integer(3)));
}

#[test]
fn empty_values_are_refused() {
    match insert_statement("t", FieldMap::new()) {
        Err(DatabaseError::QueryError(m)) => assert_eq!(m, "No values provided"),
        _ => panic!("refusal expected"),
    }
    assert!(update_statement("t", FieldMap::new(), "1 = 1").is_err());
}

#[test]
fn mutating_statements_are_recognised() {
    assert!(is_mutating_statement("  insert into t values (1)"));
    assert!(is_mutating_statement("UPDATE t SET a = 1"));
    assert!(is_mutating_statement("\tDelete from t"));
    assert!(!is_mutating_statement("SELECT * FROM t"));
    assert!(!is_mutating_statement("PRAGMA table_info(t)"));
    let r = affected_rows_result(3);
    assert_eq!(r.columns[0].0, "affected_rows");
    assert_eq!(r.columns[0].1, ColumnType::Integer);
    assert!(matches!(r.rows[0][0], DbValue::Integer(3)));
}

#[test]
fn create_errors_are_classified() {
    assert!(matches!(
        create_table_error("t", true, "table t already exists".into()),
        DatabaseError::TableAlreadyExists(t) if t == "t"
    ));
    assert!(matches!(
        create_table_error("t", false, "table t already exists".into()),
        DatabaseError::DatabaseError(_)
    ));
    assert!(matches!(
        create_table_error("t", true, "syntax error".into()),
        DatabaseError::DatabaseError(m) if m == "syntax error"
    ));
}

#[test]
fn error_messages_and_decl_types() {
    assert_eq!(DatabaseError::ConnectionError("x".into()).message(), "Connection error: x");
    assert_eq!(DatabaseError::TableNotFound("t".into()).message(), "Table not found: t");
    assert_eq!(column_type_from_decl("integer"), ColumnType::Integer);
    assert_eq!(column_type_from_decl("NUMERIC"), ColumnType::Text);
}
