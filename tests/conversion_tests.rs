use datasink::columns::{
    column_type_to_proto, proto_to_column_def, proto_to_column_type, ColumnDefinition, ColumnType,
    DataType,
};
use datasink::fields::{proto_values_to_db_values, FieldMap};
use datasink::value::{db_value_to_proto, db_values_to_proto_values, proto_to_db_value, DbValue, WireKind, WireValue};

#[test]
fn test_proto_to_column_type() {
    assert!(matches!(proto_to_column_type(DataType::Integer), ColumnType::Integer));
    assert!(matches!(proto_to_column_type(DataType::Real), ColumnType::Real));
    assert!(matches!(proto_to_column_type(DataType::Text), ColumnType::Text));
    assert!(matches!(proto_to_column_type(DataType::Blob), ColumnType::Blob));
    assert!(matches!(proto_to_column_type(DataType::Boolean), ColumnType::Boolean));
    assert!(matches!(proto_to_column_type(DataType::Timestamp), ColumnType::Timestamp));
}

#[test]
fn test_column_type_to_proto() {
    assert_eq!(column_type_to_proto(&ColumnType::Integer), DataType::Integer);
    assert_eq!(column_type_to_proto(&ColumnType::Real), DataType::Real);
    assert_eq!(column_type_to_proto(&ColumnType::Text), DataType::Text);
    assert_eq!(column_type_to_proto(&ColumnType::Blob), DataType::Blob);
    assert_eq!(column_type_to_proto(&ColumnType::Boolean), DataType::Boolean);
    assert_eq!(column_type_to_proto(&ColumnType::Timestamp), DataType::Timestamp);
}

#[test]
fn test_proto_to_column_def() {
    let proto_def = ColumnDefinition {
        name: "test_col".to_string(),
        data_type: DataType::Integer as i32,
        nullable: false,
        primary_key: true,
        unique: false,
        default_value: "0".to_string(),
    };

    let db_def = proto_to_column_def(proto_def);
    assert_eq!(db_def.name, "test_col");
    assert!(matches!(db_def.col_type, ColumnType::Integer));
    assert!(!db_def.nullable);
    assert!(db_def.primary_key);
    assert!(!db_def.unique);
    assert_eq!(db_def.default_value, Some("0".to_string()));
}

#[test]
fn test_proto_to_column_def_empty_default() {
    let proto_def = ColumnDefinition {
        name: "test_col".to_string(),
        data_type: DataType::Text as i32,
        nullable: true,
        primary_key: false,
        unique: true,
        default_value: "".to_string(),
    };

    let db_def = proto_to_column_def(proto_def);
    assert_eq!(db_def.default_value, None);
}

#[test]
fn column_def_primary_key_forces_not_null_and_unknown_code_is_text() {
    let proto_def = ColumnDefinition {
        name: "k".to_string(),
        data_type: 42,
        nullable: true,
        primary_key: true,
        unique: false,
        default_value: String::new(),
    };
    let db_def = proto_to_column_def(proto_def);
    assert!(!db_def.nullable);
    assert_eq!(db_def.col_type, ColumnType::Text);
}

#[test]
fn data_type_codes_follow_declaration_order() {
    for t in [
        DataType::Integer,
        DataType::Real,
        DataType::Text,
        DataType::Blob,
        DataType::Boolean,
        DataType::Timestamp,
    ] {
        assert_eq!(t.code(), t as i32);
        assert_eq!(DataType::from_code(t.code()), Some(t));
    }
    assert_eq!(DataType::from_code(6), None);
    assert_eq!(DataType::from_code(-1), None);
}

#[test]
fn test_proto_to_db_value() {
    let proto_int = WireValue { value: Some(WireKind::IntValue(42)) };
    assert!(matches!(proto_to_db_value(proto_int), DbValue::Integer(42)));

    let proto_real = WireValue { value: Some(WireKind::RealValue(3.14f64.to_bits())) };
    if let DbValue::Real(v) = proto_to_db_value(proto_real) {
        assert!((f64::from_bits(v) - 3.14).abs() < f64::EPSILON);
    } else {
        panic!("Expected DbValue::Real");
    }

    let proto_text = WireValue { value: Some(WireKind::TextValue("hello".to_string())) };
    assert!(matches!(proto_to_db_value(proto_text), DbValue::Text(s) if s == "hello"));

    let proto_bool = WireValue { value: Some(WireKind::BoolValue(true)) };
    assert!(matches!(proto_to_db_value(proto_bool), DbValue::Boolean(true)));

    let proto_null = WireValue { value: Some(WireKind::NullValue(true)) };
    assert!(matches!(proto_to_db_value(proto_null), DbValue::Null));

    let proto_none = WireValue { value: None };
    assert!(matches!(proto_to_db_value(proto_none), DbValue::Null));
}

#[test]
fn test_db_value_to_proto() {
    let proto_int = db_value_to_proto(DbValue::Integer(42));
    assert!(matches!(proto_int.value, Some(WireKind::IntValue(42))));

    let proto_real = db_value_to_proto(DbValue::Real(3.14f64.to_bits()));
    if let Some(WireKind::RealValue(v)) = proto_real.value {
        assert!((f64::from_bits(v) - 3.14).abs() < f64::EPSILON);
    } else {
        panic!("Expected RealValue");
    }

    let proto_text = db_value_to_proto(DbValue::Text("hello".to_string()));
    assert!(matches!(proto_text.value, Some(WireKind::TextValue(s)) if s == "hello"));

    let proto_null = db_value_to_proto(DbValue::Null);
    assert!(matches!(proto_null.value, Some(WireKind::NullValue(true))));
}

#[test]
fn test_proto_values_to_db_values() {
    let mut proto_values = FieldMap::new();
    proto_values.insert("id".to_string(), WireValue { value: Some(WireKind::IntValue(1)) });
    proto_values.insert(
        "name".to_string(),
        WireValue { value: Some(WireKind::TextValue("test".to_string())) },
    );

    let db_values = proto_values_to_db_values(proto_values);
    assert_eq!(db_values.len(), 2);
    assert!(matches!(db_values.get("id"), Some(DbValue::Integer(1))));
    assert!(matches!(db_values.get("name"), Some(DbValue::Text(s)) if s == "test"));
}

#[test]
fn test_db_values_to_proto_values() {
    let db_values = vec![
        DbValue::Integer(1),
        DbValue::Text("test".to_string()),
        DbValue::Boolean(true),
        DbValue::Null,
    ];

    let proto_values = db_values_to_proto_values(db_values);
    assert_eq!(proto_values.len(), 4);
    assert!(matches!(proto_values[0].value, Some(WireKind::IntValue(1))));
    assert!(matches!(&proto_values[1].value, Some(WireKind::TextValue(s)) if s == "test"));
    assert!(matches!(proto_values[2].value, Some(WireKind::BoolValue(true))));
    assert!(matches!(proto_values[3].value, Some(WireKind::NullValue(true))));
}

fn same(a: &DbValue, b: &DbValue) -> bool {
    match (a, b) {
        (DbValue::Integer(x), DbValue::Integer(y)) => x == y,
        (DbValue::Real(x), DbValue::Real(y)) => x == y,
        (DbValue::Text(x), DbValue::Text(y)) => x == y,
        (DbValue::Blob(x), DbValue::Blob(y)) => x == y,
        (DbValue::Boolean(x), DbValue::Boolean(y)) => x == y,
        (DbValue::Timestamp(x), DbValue::Timestamp(y)) => x == y,
        (DbValue::Null, DbValue::Null) => true,
        _ => false,
    }
}

#[test]
fn value_round_trip_boundaries() {
    let values = vec![
        DbValue::Integer(0),
        DbValue::Integer(-1),
        DbValue::Integer(i64::MAX),
        DbValue::Integer(i64::MIN),
        DbValue::Real(f64::NAN.to_bits()),
        DbValue::Real(f64::INFINITY.to_bits()),
        DbValue::Real(f64::NEG_INFINITY.to_bits()),
        DbValue::Real((-0.0f64).to_bits()),
        DbValue::Text(String::new()),
        DbValue::Blob(vec![0, 255]),
        DbValue::Boolean(false),
        DbValue::Timestamp(1640995200),
        DbValue::Null,
    ];
    for v in values {
        let back = proto_to_db_value(db_value_to_proto(v.duplicate()));
        assert!(same(&v, &back), "{:?} came back as {:?}", v, back);
    }
}

#[test]
fn field_map_insert_replaces_in_place() {
    let mut m = FieldMap::new();
    m.insert("a".to_string(), 1);
    m.insert("b".to_string(), 2);
    m.insert("a".to_string(), 3);
    assert_eq!(m.len(), 2);
    assert_eq!(m.get("a"), Some(&3));
    assert_eq!(m.entry(0), ("a", &3));
    assert_eq!(m.get("c"), None);
    assert!(m.contains_key("b"));
}
