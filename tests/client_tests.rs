use datasink::client::{
    json_to_proto_values, proto_value_to_json, proto_value_to_string, JsonCell, JsonField, QueryCollector,
};
use datasink::columns::DataType;
use datasink::stream::{Column, ErrorMessage, QueryResponse, ResultSet, Row};
use datasink::value::{WireKind, WireValue};

fn w(k: WireKind) -> WireValue {
    WireValue { value: Some(k) }
}

fn fmt_real(bits: u64) -> String {
    f64::from_bits(bits).to_string()
}

#[test]
fn values_as_text() {
    assert_eq!(proto_value_to_string(w(WireKind::IntValue(-42)), fmt_real), "-42");
    assert_eq!(proto_value_to_string(w(WireKind::IntValue(i64::MIN)), fmt_real), "-9223372036854775808");
    assert_eq!(proto_value_to_string(w(WireKind::RealValue(2.5f64.to_bits())), fmt_real), "2.5");
    assert_eq!(proto_value_to_string(w(WireKind::TextValue("hi".into())), fmt_real), "hi");
    assert_eq!(proto_value_to_string(w(WireKind::BoolValue(true)), fmt_real), "true");
    assert_eq!(proto_value_to_string(w(WireKind::TimestampValue(1640995200)), fmt_real), "1640995200");
    assert_eq!(proto_value_to_string(w(WireKind::BlobValue(vec![1, 2, 3])), fmt_real), "<blob:3 bytes>");
    assert_eq!(proto_value_to_string(w(WireKind::NullValue(true)), fmt_real), "NULL");
    assert_eq!(proto_value_to_string(WireValue { value: None }, fmt_real), "NULL");
}

#[test]
fn values_as_json() {
    assert!(matches!(proto_value_to_json(w(WireKind::BlobValue(b"Hello".to_vec()))), JsonCell::Text(s) if s == "SGVsbG8="));
    assert!(matches!(proto_value_to_json(w(WireKind::TimestampValue(7))), JsonCell::Integer(7)));
    assert!(matches!(proto_value_to_json(WireValue { value: None }), JsonCell::Null));
}

#[test]
fn json_fields_to_wire() {
    let fields = vec![
        ("n".to_string(), JsonField::Integer(1)),
        ("s".to_string(), JsonField::Text("x".into())),
        ("z".to_string(), JsonField::Null),
    ];
    let m = json_to_proto_values(&fields).unwrap();
    assert_eq!(m.len(), 3);
    assert!(matches!(m.get("n"), Some(WireValue { value: Some(WireKind::IntValue(1)) })));
    assert!(matches!(m.get("z"), Some(WireValue { value: Some(WireKind::NullValue(true)) })));
    let bad = vec![("a".to_string(), JsonField::Nested)];
    assert_eq!(json_to_proto_values(&bad).unwrap_err(), "Unsupported JSON value type");
    let bad = vec![("a".to_string(), JsonField::BadNumber)];
    assert_eq!(json_to_proto_values(&bad).unwrap_err(), "Invalid number");
}

#[test]
fn collector_accumulates_until_error() {
    let mut c = QueryCollector::new();
    let descriptor = QueryResponse::ResultSet(ResultSet {
        columns: vec![Column { name: "id".into(), data_type: DataType::Integer }],
        rows: vec![],
    });
    assert!(c.accept(descriptor));
    let data = QueryResponse::ResultSet(ResultSet {
        columns: vec![],
        rows: vec![Row { values: vec![w(WireKind::IntValue(1))] }],
    });
    assert!(c.accept(data));
    assert_eq!(c.columns.len(), 1);
    assert_eq!(c.rows.len(), 1);
    let err = QueryResponse::Error(ErrorMessage { code: "QUERY_ERROR".into(), message: "bad".into() });
    assert!(!c.accept(err));
    assert_eq!(c.error, Some(("QUERY_ERROR".to_string(), "bad".to_string())));
    assert_eq!(c.rows.len(), 1);
}
