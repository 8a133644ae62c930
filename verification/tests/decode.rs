use hypern_db::decode::RawColumn;
use hypern_db::decode::Row;
use hypern_db::decode::decode_column;
use hypern_db::decode::decode_row;
use hypern_db::values::DriverKind;
use hypern_db::values::ParameterValue;

fn blank(name: &str) -> RawColumn {
    RawColumn {
        name: String::from(name),
        is_null: false,
        as_int32: None,
        as_int64: None,
        as_str: None,
        as_float64: None,
        as_bool: None,
        as_datetime: None,
        as_date: None,
        as_time: None,
        as_json: None,
        as_str_array: None,
        as_int_array: None,
    }
}

#[test]
fn null_wins_over_everything() {
    let mut c = blank("a");
    c.is_null = true;
    c.as_int32 = Some(5);
    for d in [DriverKind::Postgres, DriverKind::MySql, DriverKind::Sqlite] {
        assert_eq!(decode_column(d, &c), ParameterValue::Null);
    }
}

#[test]
fn int32_widens_and_wins_first() {
    let mut c = blank("a");
    c.as_int32 = Some(-7);
    c.as_int64 = Some(-7);
    c.as_str = Some(String::from("-7"));
    for d in [DriverKind::Postgres, DriverKind::MySql, DriverKind::Sqlite] {
        assert_eq!(decode_column(d, &c), ParameterValue::Int64(-7));
    }
}

#[test]
fn sqlite_probes_float_before_string() {
    let mut c = blank("a");
    c.as_float64 = Some(2.5f64.to_bits());
    c.as_str = Some(String::from("2.5"));
    assert_eq!(
        decode_column(DriverKind::Sqlite, &c),
        ParameterValue::Float64(2.5f64.to_bits())
    );
    // The other backends probe the string first.
    assert_eq!(
        decode_column(DriverKind::Postgres, &c),
        ParameterValue::Str(String::from("2.5"))
    );
    assert_eq!(
        decode_column(DriverKind::MySql, &c),
        ParameterValue::Str(String::from("2.5"))
    );
}

#[test]
fn exhausted_probes_decode_to_null() {
    let mut c = blank("a");
    c.as_json = Some(String::from("{}"));
    // The MySQL-like and SQLite-like backends never probe JSON.
    assert_eq!(decode_column(DriverKind::MySql, &c), ParameterValue::Null);
    assert_eq!(decode_column(DriverKind::Sqlite, &c), ParameterValue::Null);
    assert_eq!(
        decode_column(DriverKind::Postgres, &c),
        ParameterValue::Json(String::from("{}"))
    );
}

#[test]
fn arrays_decode_to_json_text_in_probe_order() {
    let mut c = blank("a");
    c.as_str_array = Some(String::from("[\"x\",\"y\"]"));
    c.as_int_array = Some(String::from("[1,2]"));
    assert_eq!(
        decode_column(DriverKind::Postgres, &c),
        ParameterValue::Json(String::from("[\"x\",\"y\"]"))
    );
}

#[test]
fn row_keeps_order_and_resolves_duplicates_last_write_wins() {
    let mut a = blank("x");
    a.as_int32 = Some(1);
    let mut b = blank("y");
    b.as_str = Some(String::from("mid"));
    let mut c = blank("x");
    c.as_int32 = Some(9);
    let raw = vec![a, b, c];
    let row = decode_row(DriverKind::Postgres, &raw);
    assert_eq!(row.len(), 3);
    assert_eq!(row.get("x"), Some(ParameterValue::Int64(9)));
    assert_eq!(row.get("y"), Some(ParameterValue::Str(String::from("mid"))));
    assert_eq!(row.get("z"), None);
}

#[test]
fn scalar_round_trip_on_every_backend() {
    // A faithful echo offers the bound value back through its native
    // candidates; decoding recovers the value exactly.
    let values = vec![
        ParameterValue::Str(String::from("hello")),
        ParameterValue::Int64(42),
        ParameterValue::Int64(i64::MAX),
        ParameterValue::Float64(42.0f64.to_bits()),
    ];
    for v in values {
        for d in [DriverKind::Postgres, DriverKind::MySql, DriverKind::Sqlite] {
            let mut c = blank("echo");
            match &v {
                ParameterValue::Str(s) => c.as_str = Some(s.clone()),
                ParameterValue::Int64(x) => {
                    c.as_int32 = i32::try_from(*x).ok();
                    c.as_int64 = Some(*x);
                }
                ParameterValue::Float64(bits) => c.as_float64 = Some(*bits),
                _ => unreachable!(),
            }
            assert_eq!(decode_column(d, &c), v);
        }
    }
}

#[test]
fn bool_round_trips_only_where_the_backend_types_it() {
    // The Postgres-like backend keeps a boolean column type and hands the
    // boolean extraction back alone.
    let mut c = blank("echo");
    c.as_bool = Some(true);
    assert_eq!(decode_column(DriverKind::Postgres, &c), ParameterValue::Bool(true));

    // The integer-affinity backends store a boolean as an integer, so the
    // echo offers the integer extractions too and the probe order reaches
    // them first.
    let mut c = blank("echo");
    c.as_int32 = Some(1);
    c.as_int64 = Some(1);
    c.as_bool = Some(true);
    assert_eq!(decode_column(DriverKind::MySql, &c), ParameterValue::Int64(1));
    assert_eq!(decode_column(DriverKind::Sqlite, &c), ParameterValue::Int64(1));
}

#[test]
fn empty_row_lookup() {
    let row = Row { columns: Vec::new() };
    assert_eq!(row.get("a"), None);
    assert_eq!(row.len(), 0);
}
