use hypern_db::bulk::batch_layout;
use hypern_db::errors::DbError;
use hypern_db::transaction::Transaction;
use hypern_db::values::DriverKind;
use hypern_db::values::ParameterValue;

fn sets(n: i64) -> Vec<Vec<ParameterValue>> {
    (0..n).map(|i| vec![ParameterValue::Int64(i)]).collect()
}

#[test]
fn five_sets_with_batch_size_two_group_as_two_two_one() {
    assert_eq!(batch_layout(5, 2), vec![2, 2, 1]);
    assert_eq!(batch_layout(4, 2), vec![2, 2]);
    assert_eq!(batch_layout(1, 2), vec![1]);
    assert_eq!(batch_layout(0, 2), Vec::<usize>::new());
    assert_eq!(batch_layout(7, 3), vec![3, 3, 1]);
}

#[test]
fn failure_at_item_three_leaves_later_items_unattempted() {
    let mut tx = Transaction::fresh(DriverKind::Postgres);
    let mut run = tx.begin_bulk("UPDATE t SET a = $1", sets(5), 2).unwrap();

    // Items run strictly in order; the first two succeed.
    assert_eq!(run.current_item(), Some(0));
    assert!(run.bind_next().is_some());
    run.record_success(1);
    assert_eq!(run.current_item(), Some(1));
    assert!(run.bind_next().is_some());
    run.record_success(1);

    // Item 3 of 5 (index 2) fails; items 4 and 5 are never attempted.
    assert_eq!(run.current_item(), Some(2));
    assert!(run.bind_next().is_some());
    run.record_exec_failure(String::from("constraint violated"));
    assert_eq!(run.current_item(), None);
    assert!(run.rollback_owed());

    // The returned error reflects item 3's failure, and the transaction is
    // dirty so the owed rollback really rolls back.
    let e = tx.finish_bulk(&run).unwrap_err();
    assert_eq!(e, DbError::Query(String::from("constraint violated")));
    assert!(tx.dirty);
    let action = tx.begin_rollback();
    assert!(action.backend_call);
    assert!(action.renew);
    tx.finish_renewal(true);
    assert!(tx.handle_present);
    assert!(!tx.dirty);
}

#[test]
fn full_success_sums_rows_and_marks_dirty() {
    let mut tx = Transaction::fresh(DriverKind::MySql);
    let mut run = tx.begin_bulk("UPDATE t SET a = ?", sets(3), 2).unwrap();
    let mut rows = 10;
    while let Some(_) = run.current_item() {
        let bound = run.bind_next().unwrap();
        assert_eq!(bound.text, "UPDATE t SET a = ?");
        run.record_success(rows);
        rows += 1;
    }
    assert!(!run.rollback_owed());
    let total = tx.finish_bulk(&run).unwrap();
    assert_eq!(total, 10 + 11 + 12);
    assert!(tx.dirty);
}

#[test]
fn binder_refusal_stops_without_dirtying() {
    let mut tx = Transaction::fresh(DriverKind::Sqlite);
    let bad = vec![
        vec![ParameterValue::Int64(1)],
        vec![ParameterValue::Json(String::from("{}"))],
    ];
    let mut run = tx.begin_bulk("a=$1", bad, 10).unwrap();
    assert!(run.bind_next().is_some());
    run.record_success(1);
    // The binder refuses the second set; the run stops there.
    assert!(run.bind_next().is_none());
    assert_eq!(run.current_item(), None);
    assert!(!run.rollback_owed());
    let e = tx.finish_bulk(&run).unwrap_err();
    assert_eq!(e, DbError::UnsupportedParameterType(String::from("json")));
    assert!(!tx.dirty);
}

#[test]
fn bulk_on_finalized_transaction_is_refused() {
    let tx = Transaction {
        driver: DriverKind::Postgres,
        handle_present: false,
        dirty: false,
    };
    let e = tx.begin_bulk("q", sets(1), 1).unwrap_err();
    assert_eq!(e, DbError::NoActiveTransaction);
}
