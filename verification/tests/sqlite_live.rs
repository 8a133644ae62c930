//! The SQLite-like path against the real driver: rewrite, bind, execute,
//! decode, and the commit/renewal protocol, on an in-memory database.

use hypern_db::decode::RawColumn;
use hypern_db::decode::decode_row;
use hypern_db::transaction::Transaction;
use hypern_db::values::DriverKind;
use hypern_db::values::ParameterValue;
use sqlx::Column;
use sqlx::Row as SqlxRow;
use sqlx::ValueRef;

fn bind_scalars<'q>(
    mut q: sqlx::query::Query<'q, sqlx::Sqlite, sqlx::sqlite::SqliteArguments>,
    params: &[ParameterValue],
) -> sqlx::query::Query<'q, sqlx::Sqlite, sqlx::sqlite::SqliteArguments> {
    for p in params {
        q = match p {
            ParameterValue::Str(s) => q.bind(s.clone()),
            ParameterValue::Int64(i) => q.bind(*i),
            ParameterValue::Float64(bits) => q.bind(f64::from_bits(*bits)),
            ParameterValue::Bool(b) => q.bind(*b),
            _ => panic!("kind refused by the binder"),
        };
    }
    q
}

fn raw_columns(row: &sqlx::sqlite::SqliteRow) -> Vec<RawColumn> {
    let mut out = Vec::new();
    for (i, column) in row.columns().iter().enumerate() {
        let is_null = row
            .try_get_raw(i)
            .map(|v| ValueRef::is_null(&v))
            .unwrap_or(true);
        out.push(RawColumn {
            name: column.name().to_owned(),
            is_null,
            as_int32: row.try_get::<i32, _>(i).ok(),
            as_int64: row.try_get::<i64, _>(i).ok(),
            as_str: row.try_get::<String, _>(i).ok(),
            as_float64: row.try_get::<f64, _>(i).ok().map(f64::to_bits),
            as_bool: row.try_get::<bool, _>(i).ok(),
            as_datetime: None,
            as_date: None,
            as_time: None,
            as_json: None,
            as_str_array: None,
            as_int_array: None,
        });
    }
    out
}

#[test]
fn rewrite_bind_execute_decode_against_sqlite() {
    let rt = tokio::runtime::Builder::new_current_thread()
        .enable_all()
        .build()
        .unwrap();
    rt.block_on(async {
        let pool = sqlx::sqlite::SqlitePoolOptions::new()
            .max_connections(1)
            .connect("sqlite::memory:")
            .await
            .unwrap();
        let mut native = pool.begin().await.unwrap();
        let state = Transaction::fresh(DriverKind::Sqlite);

        // The rewrite binds one value per occurrence, in occurrence order.
        let params = vec![
            ParameterValue::Str(String::from("x")),
            ParameterValue::Int64(7),
        ];
        let bound = state
            .prepare("SELECT $1 AS a, $2 AS b, $1 AS c", &params)
            .unwrap();
        assert_eq!(bound.text, "SELECT ? AS a, ? AS b, ? AS c");
        let row = bind_scalars(
            sqlx::query(sqlx::AssertSqlSafe(bound.text.clone())),
            &bound.params,
        )
        .fetch_one(&mut *native)
        .await
        .unwrap();
        let decoded = decode_row(DriverKind::Sqlite, &raw_columns(&row));
        assert_eq!(decoded.get("a"), Some(ParameterValue::Str(String::from("x"))));
        assert_eq!(decoded.get("b"), Some(ParameterValue::Int64(7)));
        assert_eq!(decoded.get("c"), Some(ParameterValue::Str(String::from("x"))));

        // Scalar round trip: bind, echo, decode gives the value back.
        for v in [
            ParameterValue::Str(String::from("hello world")),
            ParameterValue::Int64(-42),
            ParameterValue::Int64(i64::MAX),
            ParameterValue::Float64(1.5f64.to_bits()),
        ] {
            let bound = state.prepare("SELECT $1 AS echo", &vec![v.clone()]).unwrap();
            let row = bind_scalars(
                sqlx::query(sqlx::AssertSqlSafe(bound.text.clone())),
                &bound.params,
            )
            .fetch_one(&mut *native)
            .await
            .unwrap();
            let decoded = decode_row(DriverKind::Sqlite, &raw_columns(&row));
            assert_eq!(decoded.get("echo"), Some(v));
        }

        // SQLite stores a boolean as an integer, so a bound boolean comes
        // back through the integer extraction.
        let bound = state
            .prepare("SELECT $1 AS echo", &vec![ParameterValue::Bool(true)])
            .unwrap();
        let row = bind_scalars(
            sqlx::query(sqlx::AssertSqlSafe(bound.text.clone())),
            &bound.params,
        )
        .fetch_one(&mut *native)
        .await
        .unwrap();
        let decoded = decode_row(DriverKind::Sqlite, &raw_columns(&row));
        assert_eq!(decoded.get("echo"), Some(ParameterValue::Int64(1)));

        // SQL NULL decodes to the vocabulary's null.
        let bound = state.prepare("SELECT NULL AS n", &Vec::new()).unwrap();
        let row = sqlx::query(sqlx::AssertSqlSafe(bound.text.clone()))
            .fetch_one(&mut *native)
            .await
            .unwrap();
        let decoded = decode_row(DriverKind::Sqlite, &raw_columns(&row));
        assert_eq!(decoded.get("n"), Some(ParameterValue::Null));

        native.rollback().await.unwrap();
    });
}

#[test]
fn execute_and_rows_affected_against_sqlite() {
    let rt = tokio::runtime::Builder::new_current_thread()
        .enable_all()
        .build()
        .unwrap();
    rt.block_on(async {
        let pool = sqlx::sqlite::SqlitePoolOptions::new()
            .max_connections(1)
            .connect("sqlite::memory:")
            .await
            .unwrap();
        let mut native = pool.begin().await.unwrap();
        let state = Transaction::fresh(DriverKind::Sqlite);

        let ddl = state
            .prepare("CREATE TABLE t (a TEXT, b INTEGER)", &Vec::new())
            .unwrap();
        sqlx::query(sqlx::AssertSqlSafe(ddl.text.clone()))
            .execute(&mut *native)
            .await
            .unwrap();

        let ins = state
            .prepare(
                "INSERT INTO t VALUES ($1, $2), ($1, $2)",
                &vec![
                    ParameterValue::Str(String::from("k")),
                    ParameterValue::Int64(1),
                ],
            )
            .unwrap();
        let outcome = bind_scalars(
            sqlx::query(sqlx::AssertSqlSafe(ins.text.clone())),
            &ins.params,
        )
        .execute(&mut *native)
        .await
        .map(|r| r.rows_affected())
        .map_err(|e| e.to_string());
        assert_eq!(state.complete_execute(outcome), Ok(2));

        // A driver failure reaches the caller as a query error and leaves
        // the transaction usable.
        let bad = state.prepare("INSERT INTO missing VALUES (1)", &Vec::new()).unwrap();
        let outcome = sqlx::query(sqlx::AssertSqlSafe(bad.text.clone()))
            .execute(&mut *native)
            .await
            .map(|r| r.rows_affected())
            .map_err(|e| e.to_string());
        assert!(matches!(
            state.complete_execute(outcome),
            Err(hypern_db::errors::DbError::Query(_))
        ));
        assert!(state.handle_present);

        native.rollback().await.unwrap();
    });
}
