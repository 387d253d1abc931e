use datasink::columns::{ColumnType, DataType};
use datasink::storage::DatabaseError;
use datasink::stream::{QueryResponse, QueryStream, StreamPhase};
use datasink::value::{DbValue, WireKind};

fn run(
    columns: Vec<(String, ColumnType)>,
    pulls: Vec<Option<Result<Vec<DbValue>, DatabaseError>>>,
) -> Vec<QueryResponse> {
    let mut s = QueryStream::new(columns);
    let mut out = vec![s.start()];
    for p in pulls {
        if s.is_finished() {
            break;
        }
        if let Some(m) = s.on_pull(p) {
            out.push(m);
        }
    }
    out
}

fn cols() -> Vec<(String, ColumnType)> {
    vec![("id".to_string(), ColumnType::Integer), ("name".to_string(), ColumnType::Text)]
}

#[test]
fn rows_then_end() {
    let pulls = vec![
        Some(Ok(vec![DbValue::Integer(1), DbValue::Text("a".into())])),
        Some(Ok(vec![DbValue::Integer(2), DbValue::Text("b".into())])),
        Some(Ok(vec![DbValue::Integer(3), DbValue::Null])),
        None,
    ];
    let msgs = run(cols(), pulls);
    assert_eq!(msgs.len(), 4);
    match &msgs[0] {
        QueryResponse::ResultSet(rs) => {
            assert_eq!(rs.columns.len(), 2);
            assert_eq!(rs.columns[0].name, "id");
            assert_eq!(rs.columns[0].data_type, DataType::Integer);
            assert_eq!(rs.columns[1].data_type, DataType::Text);
            assert!(rs.rows.is_empty());
        }
        _ => panic!("descriptor expected"),
    }
    for (i, m) in msgs[1..].iter().enumerate() {
        match m {
            QueryResponse::ResultSet(rs) => {
                assert!(rs.columns.is_empty());
                assert_eq!(rs.rows.len(), 1);
                assert!(matches!(rs.rows[0].values[0].value, Some(WireKind::IntValue(n)) if n == i as i64 + 1));
            }
            _ => panic!("data expected"),
        }
    }
}

#[test]
fn empty_result_gives_descriptor_only() {
    let msgs = run(cols(), vec![None]);
    assert_eq!(msgs.len(), 1);
}

#[test]
fn failure_after_two_rows_stops_the_stream() {
    let pulls = vec![
        Some(Ok(vec![DbValue::Integer(1)])),
        Some(Ok(vec![DbValue::Integer(2)])),
        Some(Err(DatabaseError::QueryError("disk I/O".into()))),
        Some(Ok(vec![DbValue::Integer(3)])),
        None,
    ];
    let mut s = QueryStream::new(cols());
    let mut msgs = vec![s.start()];
    for p in pulls {
        if s.is_finished() {
            break;
        }
        if let Some(m) = s.on_pull(p) {
            msgs.push(m);
        }
    }
    assert_eq!(s.phase_now(), StreamPhase::Finished);
    assert_eq!(msgs.len(), 4);
    match &msgs[3] {
        QueryResponse::Error(e) => {
            assert_eq!(e.code, "QUERY_ERROR");
            assert_eq!(e.message, "Query error: disk I/O");
        }
        _ => panic!("error expected"),
    }
}
