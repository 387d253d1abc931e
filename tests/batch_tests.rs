use datasink::batch::{BatchAction, BatchInsert};
use datasink::fields::FieldMap;
use datasink::storage::DatabaseError;
use datasink::value::DbValue;

fn row(id: i64) -> FieldMap<DbValue> {
    let mut r = FieldMap::new();
    r.insert("id".to_string(), DbValue::Integer(id));
    r
}

#[test]
fn empty_batch_opens_no_transaction() {
    let plan = BatchInsert::new("t", vec![]);
    assert!(matches!(plan.first(), BatchAction::Done(0)));
}

#[test]
fn empty_rows_are_passed_over() {
    let plan = BatchInsert::new("t", vec![row(1), FieldMap::new(), row(2)]);
    assert_eq!(plan.len(), 2);
    assert_eq!(plan.statement(1).sql, "INSERT INTO t (id) VALUES (?1)");
    let only_empty = BatchInsert::new("t", vec![FieldMap::new()]);
    assert!(matches!(only_empty.first(), BatchAction::Commit(0)));
}

#[test]
fn all_rows_in_then_commit() {
    let plan = BatchInsert::new("t", (1..=5).map(row).collect());
    let mut action = plan.first();
    let mut executed = 0;
    loop {
        match action {
            BatchAction::Execute(i) => {
                executed += 1;
                action = plan.after(i, Ok(()));
            }
            BatchAction::Commit(n) => {
                assert_eq!(n, 5);
                break;
            }
            _ => panic!("unexpected action"),
        }
    }
    assert_eq!(executed, 5);
}

#[test]
fn failing_row_rolls_back_whole_batch() {
    let plan = BatchInsert::new("t", (1..=5).map(row).collect());
    let mut action = plan.first();
    let mut committed = false;
    let failure = loop {
        match action {
            BatchAction::Execute(i) => {
                let outcome = if i == 2 {
                    Err(DatabaseError::DatabaseError("UNIQUE constraint failed".into()))
                } else {
                    Ok(())
                };
                action = plan.after(i, outcome);
            }
            BatchAction::Commit(_) => {
                committed = true;
                break None;
            }
            BatchAction::Rollback(e) => break Some(e),
            BatchAction::Done(_) => panic!("unexpected"),
        }
    };
    assert!(!committed);
    assert!(matches!(failure, Some(DatabaseError::DatabaseError(m)) if m == "UNIQUE constraint failed"));
}
