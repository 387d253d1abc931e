use datasink::fields::FieldMap;
use datasink::schema::{ColumnDef, Schema, TableDef, DatabaseInfo};
use datasink::seed::{
    prepare_insert_data, prepare_insert_data_db, prepare_insert_data_db_at, toml_value_to_db,
    toml_value_to_db_at, toml_value_to_proto, trim_matches_char, TomlValue,
};
use datasink::value::{DbValue, WireKind};

fn parse_real(s: &str) -> Option<u64> {
    s.parse::<f64>().ok().map(f64::to_bits)
}

fn column(name: &str, t: &str, nullable: bool, pk: bool, auto: bool, default: Option<&str>) -> ColumnDef {
    ColumnDef {
        name: name.to_string(),
        col_type: t.to_string(),
        nullable,
        primary_key: pk,
        unique: false,
        auto_increment: auto,
        default: default.map(|s| s.to_string()),
        foreign_key: None,
    }
}

#[test]
fn test_toml_value_to_proto() {
    let proto_int = toml_value_to_proto(&TomlValue::Integer(42), "INTEGER").unwrap();
    assert!(matches!(proto_int.value, Some(WireKind::IntValue(42))));

    let proto_real = toml_value_to_proto(&TomlValue::Float(3.14f64.to_bits()), "REAL").unwrap();
    if let Some(WireKind::RealValue(v)) = proto_real.value {
        assert!((f64::from_bits(v) - 3.14).abs() < f64::EPSILON);
    }

    let proto_text = toml_value_to_proto(&TomlValue::String("hello".to_string()), "TEXT").unwrap();
    assert!(matches!(&proto_text.value, Some(WireKind::TextValue(s)) if s == "hello"));

    let proto_bool = toml_value_to_proto(&TomlValue::Boolean(true), "BOOLEAN").unwrap();
    assert!(matches!(proto_bool.value, Some(WireKind::BoolValue(true))));
}

#[test]
fn test_toml_value_to_proto_type_mismatch() {
    let result = toml_value_to_proto(&TomlValue::Integer(42), "TEXT");
    assert!(result.is_err());
}

#[test]
fn test_toml_value_to_db() {
    assert!(matches!(toml_value_to_db(&TomlValue::Integer(42), "INTEGER").unwrap(), DbValue::Integer(42)));
    if let DbValue::Real(v) = toml_value_to_db(&TomlValue::Float(3.14f64.to_bits()), "REAL").unwrap() {
        assert!((f64::from_bits(v) - 3.14).abs() < f64::EPSILON);
    }
    assert!(matches!(toml_value_to_db(&TomlValue::String("hello".to_string()), "TEXT").unwrap(), DbValue::Text(s) if s == "hello"));
    assert!(matches!(toml_value_to_db(&TomlValue::Boolean(true), "BOOLEAN").unwrap(), DbValue::Boolean(true)));
}

#[test]
fn seed_values_by_type() {
    assert!(matches!(toml_value_to_db_at(&TomlValue::Integer(5), "timestamp", 9), Ok(DbValue::Timestamp(5))));
    assert!(matches!(
        toml_value_to_db_at(&TomlValue::String("CURRENT_TIMESTAMP".into()), "TIMESTAMP", 1640995200),
        Ok(DbValue::Timestamp(1640995200))
    ));
    assert_eq!(
        toml_value_to_db_at(&TomlValue::Integer(42), "TEXT", 0).unwrap_err(),
        "Type mismatch: cannot convert integer to TEXT"
    );
    assert_eq!(
        toml_value_to_db_at(&TomlValue::Other("array".into()), "TEXT", 0).unwrap_err(),
        "Type mismatch: cannot convert array to TEXT"
    );
}

#[test]
fn test_prepare_insert_data_db() {
    let table_def = TableDef {
        name: "test_table".to_string(),
        description: None,
        columns: vec![
            column("id", "INTEGER", false, true, true, None),
            column("name", "TEXT", false, false, false, None),
            column("active", "BOOLEAN", true, false, false, Some("true")),
        ],
    };
    let mut row_data = FieldMap::new();
    row_data.insert("name".to_string(), TomlValue::String("Test User".to_string()));

    let result = prepare_insert_data_db(&table_def, &row_data, parse_real).unwrap();
    assert!(!result.contains_key("id"));
    assert!(matches!(result.get("name"), Some(DbValue::Text(s)) if s == "Test User"));
    assert!(matches!(result.get("active"), Some(DbValue::Boolean(true))));
}

#[test]
fn test_prepare_insert_data_db_missing_required() {
    let table_def = TableDef {
        name: "test_table".to_string(),
        description: None,
        columns: vec![column("name", "TEXT", false, false, false, None)],
    };
    let row_data = FieldMap::new();
    let result = prepare_insert_data_db(&table_def, &row_data, parse_real);
    assert!(result.is_err());
    assert!(result.unwrap_err().to_string().contains("Missing required field"));
}

#[test]
fn defaults_of_each_kind() {
    let table_def = TableDef {
        name: "t".to_string(),
        description: None,
        columns: vec![
            column("n", "INTEGER", true, false, false, Some("17")),
            column("bad", "INTEGER", true, false, false, Some("x")),
            column("r", "REAL", true, false, false, Some("2.5")),
            column("s", "TEXT", true, false, false, Some("'quoted'")),
            column("at", "TIMESTAMP", true, false, false, Some("CURRENT_TIMESTAMP")),
            column("opt", "TEXT", true, false, false, None),
        ],
    };
    let m = prepare_insert_data_db_at(&table_def, &FieldMap::new(), 77, parse_real).unwrap();
    assert_eq!(m.len(), 4);
    assert!(matches!(m.get("n"), Some(DbValue::Integer(17))));
    assert!(m.get("bad").is_none());
    assert!(matches!(m.get("r"), Some(DbValue::Real(b)) if *b == 2.5f64.to_bits()));
    assert!(matches!(m.get("s"), Some(DbValue::Text(s)) if s == "quoted"));
    assert!(matches!(m.get("at"), Some(DbValue::Timestamp(77))));
    let wire = prepare_insert_data(&table_def, &FieldMap::new(), parse_real).unwrap();
    assert!(matches!(wire.get("n"), Some(v) if matches!(v.value, Some(WireKind::IntValue(17)))));
}

#[test]
fn trimming_quotes() {
    assert_eq!(trim_matches_char("''a'b''", '\''), "a'b");
    assert_eq!(trim_matches_char("''''", '\''), "");
    assert_eq!(trim_matches_char("abc", '"'), "abc");
}

#[test]
fn schema_table_lookup() {
    let schema = Schema {
        database: DatabaseInfo { name: "d".into(), description: "".into(), version: "1.0.0".into() },
        tables: vec![
            TableDef { name: "a".into(), description: None, columns: vec![] },
            TableDef { name: "b".into(), description: Some("second".into()), columns: vec![] },
        ],
        data: vec![],
        indexes: vec![],
    };
    assert_eq!(schema.find_table("b").map(|t| t.description.clone()), Some(Some("second".to_string())));
    assert!(schema.find_table("c").is_none());
}
