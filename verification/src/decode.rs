//! Row decoding: from a backend-native row, presented as candidate
//! decodings per column, back to the generic value vocabulary.
//!
//! Each backend probes its candidates in a fixed order and the first success
//! wins; SQL NULL, or a column matching no candidate, decodes to `Null`.
//! A driver-level error is not decoded here: it aborts the whole fetch and
//! reaches the caller as a query error.

use vstd::prelude::*;
use crate::values::Date;
use crate::values::DateTime;
use crate::values::DriverKind;
use crate::values::ParameterValue;
use crate::values::Time;
use crate::values::ValueKind;

verus! {

/// One column of a backend-native row, presented as its candidate decodings.
/// Each field holds what the corresponding native extraction would yield, or
/// nothing where that extraction fails.
#[derive(Clone, Debug, PartialEq, Eq)]
pub struct RawColumn {
    pub name: String,
    /// The column is SQL NULL.
    pub is_null: bool,
    pub as_int32: Option<i32>,
    pub as_int64: Option<i64>,
    pub as_str: Option<String>,
    /// IEEE 754 bit pattern of the extracted double.
    pub as_float64: Option<u64>,
    pub as_bool: Option<bool>,
    pub as_datetime: Option<DateTime>,
    pub as_date: Option<Date>,
    pub as_time: Option<Time>,
    /// Serialized text of the extracted JSON value.
    pub as_json: Option<String>,
    /// Serialized text of the extracted text array.
    pub as_str_array: Option<String>,
    /// Serialized text of the extracted integer array.
    pub as_int_array: Option<String>,
}

/// What the backend-specific probe order decodes a column to.
///
/// Postgres-like: int32, int64, string, float64, bool, datetime, date, time,
/// JSON, text array, integer array. MySQL-like: int32, int64, string,
/// float64, bool. SQLite-like: int32, int64, float64, bool, string.
pub open spec fn decode_column_spec(d: DriverKind, c: RawColumn) -> ParameterValue {
    if c.is_null {
        ParameterValue::Null
    } else if c.as_int32 is Some {
        ParameterValue::Int64(c.as_int32->Some_0 as i64)
    } else if c.as_int64 is Some {
        ParameterValue::Int64(c.as_int64->Some_0)
    } else {
        match d {
            DriverKind::Postgres => decode_pg_tail(c),
            DriverKind::MySql => decode_mysql_tail(c),
            DriverKind::Sqlite => decode_sqlite_tail(c),
        }
    }
}

pub open spec fn decode_pg_tail(c: RawColumn) -> ParameterValue {
    if c.as_str is Some {
        ParameterValue::Str(c.as_str->Some_0)
    } else if c.as_float64 is Some {
        ParameterValue::Float64(c.as_float64->Some_0)
    } else if c.as_bool is Some {
        ParameterValue::Bool(c.as_bool->Some_0)
    } else if c.as_datetime is Some {
        ParameterValue::DateTime(c.as_datetime->Some_0)
    } else if c.as_date is Some {
        ParameterValue::Date(c.as_date->Some_0)
    } else if c.as_time is Some {
        ParameterValue::Time(c.as_time->Some_0)
    } else if c.as_json is Some {
        ParameterValue::Json(c.as_json->Some_0)
    } else if c.as_str_array is Some {
        ParameterValue::Json(c.as_str_array->Some_0)
    } else if c.as_int_array is Some {
        ParameterValue::Json(c.as_int_array->Some_0)
    } else {
        ParameterValue::Null
    }
}

pub open spec fn decode_mysql_tail(c: RawColumn) -> ParameterValue {
    if c.as_str is Some {
        ParameterValue::Str(c.as_str->Some_0)
    } else if c.as_float64 is Some {
        ParameterValue::Float64(c.as_float64->Some_0)
    } else if c.as_bool is Some {
        ParameterValue::Bool(c.as_bool->Some_0)
    } else {
        ParameterValue::Null
    }
}

pub open spec fn decode_sqlite_tail(c: RawColumn) -> ParameterValue {
    if c.as_float64 is Some {
        ParameterValue::Float64(c.as_float64->Some_0)
    } else if c.as_bool is Some {
        ParameterValue::Bool(c.as_bool->Some_0)
    } else if c.as_str is Some {
        ParameterValue::Str(c.as_str->Some_0)
    } else {
        ParameterValue::Null
    }
}

/// Decodes one column by the backend's probe order.
pub fn decode_column(d: DriverKind, c: &RawColumn) -> (pv: ParameterValue)
    ensures
        pv == decode_column_spec(d, *c),
{
    if c.is_null {
        return ParameterValue::Null;
    }
    if let Some(x) = &c.as_int32 {
        return ParameterValue::Int64(*x as i64);
    }
    if let Some(x) = &c.as_int64 {
        return ParameterValue::Int64(*x);
    }
    match d {
        DriverKind::Postgres => {
            if let Some(s) = &c.as_str {
                ParameterValue::Str(s.clone())
            } else if let Some(f) = &c.as_float64 {
                ParameterValue::Float64(*f)
            } else if let Some(b) = &c.as_bool {
                ParameterValue::Bool(*b)
            } else if let Some(dt) = &c.as_datetime {
                ParameterValue::DateTime(*dt)
            } else if let Some(dd) = &c.as_date {
                ParameterValue::Date(*dd)
            } else if let Some(t) = &c.as_time {
                ParameterValue::Time(*t)
            } else if let Some(j) = &c.as_json {
                ParameterValue::Json(j.clone())
            } else if let Some(j) = &c.as_str_array {
                ParameterValue::Json(j.clone())
            } else if let Some(j) = &c.as_int_array {
                ParameterValue::Json(j.clone())
            } else {
                ParameterValue::Null
            }
        },
        DriverKind::MySql => {
            if let Some(s) = &c.as_str {
                ParameterValue::Str(s.clone())
            } else if let Some(f) = &c.as_float64 {
                ParameterValue::Float64(*f)
            } else if let Some(b) = &c.as_bool {
                ParameterValue::Bool(*b)
            } else {
                ParameterValue::Null
            }
        },
        DriverKind::Sqlite => {
            if let Some(f) = &c.as_float64 {
                ParameterValue::Float64(*f)
            } else if let Some(b) = &c.as_bool {
                ParameterValue::Bool(*b)
            } else if let Some(s) = &c.as_str {
                ParameterValue::Str(s.clone())
            } else {
                ParameterValue::Null
            }
        },
    }
}

/// A decoded row: the columns in order, each a name paired with its value.
/// A duplicated column name resolves last-write-wins on lookup.
#[derive(Clone, Debug, PartialEq, Eq)]
pub struct Row {
    pub columns: Vec<(String, ParameterValue)>,
}

/// The value a lookup yields: the value of the rightmost column of that name.
pub open spec fn lookup_spec(cols: Seq<(String, ParameterValue)>, name: Seq<char>) -> Option<
    ParameterValue,
>
    decreases cols.len(),
{
    if cols.len() == 0 {
        None
    } else if cols.last().0@ == name {
        Some(cols.last().1)
    } else {
        lookup_spec(cols.drop_last(), name)
    }
}

impl Row {
    /// The value of the named column, duplicates resolving last-write-wins.
    pub fn get(&self, name: &str) -> (r: Option<ParameterValue>)
        ensures
            r == lookup_spec(self.columns@, name@),
    {
        let n = self.columns.len();
        let mut i: usize = n;
        proof {
            assert(self.columns@.subrange(0, n as int) =~= self.columns@);
        }
        while i > 0
            invariant
                0 <= i <= n,
                n == self.columns@.len(),
                lookup_spec(self.columns@, name@) == lookup_spec(
                    self.columns@.subrange(0, i as int),
                    name@,
                ),
            decreases i,
        {
            i = i - 1;
            let entry = &self.columns[i];
            if crate::text::str_eq(entry.0.as_str(), name) {
                proof {
                    let pre = self.columns@.subrange(0, (i + 1) as int);
                    assert(pre.last() == self.columns@[i as int]);
                }
                return Some(entry.1.duplicate());
            }
            proof {
                let pre = self.columns@.subrange(0, (i + 1) as int);
                assert(pre.last() == self.columns@[i as int]);
                assert(pre.drop_last() =~= self.columns@.subrange(0, i as int));
            }
        }
        proof {
            assert(self.columns@.subrange(0, 0) =~= Seq::<(String, ParameterValue)>::empty());
        }
        None
    }

    /// How many columns the row has.
    pub fn len(&self) -> (n: usize)
        ensures
            n == self.columns@.len(),
    {
        self.columns.len()
    }
}

/// The row `row` is the decoding of the native row `raw` under backend `d`:
/// same columns in order, each value decoded by the backend's probe order.
pub open spec fn decoded_row_of(d: DriverKind, raw: Vec<RawColumn>, row: Row) -> bool {
    &&& row.columns@.len() == raw@.len()
    &&& forall|i: int|
        0 <= i < raw@.len() ==> #[trigger] row.columns@[i].0 == raw@[i].name && row.columns@[i].1
            == decode_column_spec(d, raw@[i])
}

/// Decodes a whole native row by the backend's probe order, keeping column
/// order.
pub fn decode_row(d: DriverKind, raw: &Vec<RawColumn>) -> (row: Row)
    ensures
        decoded_row_of(d, *raw, row),
{
    let n = raw.len();
    let mut columns: Vec<(String, ParameterValue)> = Vec::new();
    let mut i: usize = 0;
    while i < n
        invariant
            0 <= i <= n,
            n == raw@.len(),
            columns@.len() == i,
            forall|j: int|
                0 <= j < i ==> #[trigger] columns@[j].0 == raw@[j].name && columns@[j].1
                    == decode_column_spec(d, raw@[j]),
        decreases n - i,
    {
        let c = &raw[i];
        let value = decode_column(d, c);
        columns.push((c.name.clone(), value));
        i = i + 1;
    }
    Row { columns }
}

/// Decodes each native row of a materialized row set.
pub fn decode_rows(d: DriverKind, raws: &Vec<Vec<RawColumn>>) -> (rows: Vec<Row>)
    ensures
        rows@.len() == raws@.len(),
        forall|i: int| 0 <= i < raws@.len() ==> decoded_row_of(d, raws@[i], #[trigger] rows@[i]),
{
    let n = raws.len();
    let mut rows: Vec<Row> = Vec::new();
    let mut i: usize = 0;
    while i < n
        invariant
            0 <= i <= n,
            n == raws@.len(),
            rows@.len() == i,
            forall|k: int| 0 <= k < i ==> decoded_row_of(d, raws@[k], #[trigger] rows@[k]),
        decreases n - i,
    {
        let row = decode_row(d, &raws[i]);
        rows.push(row);
        i = i + 1;
    }
    rows
}

/// A kind whose values a faithful echo carries back exactly: the four
/// probe-order scalars.
pub open spec fn scalar_kind(k: ValueKind) -> bool {
    k == ValueKind::Str || k == ValueKind::Int64 || k == ValueKind::Float64 || k == ValueKind::Bool
}

/// Whether the backend keeps a distinct boolean column type. The
/// Postgres-like backend does; the MySQL-like and SQLite-like backends
/// store a boolean as an integer, so an echoed boolean comes back offering
/// the integer extractions too.
pub open spec fn typed_booleans(d: DriverKind) -> bool {
    d == DriverKind::Postgres
}

/// The column backend `d` produces when a query echoes the bound value `v`
/// back: the candidates its native extractions would offer.
pub open spec fn echoed_column(d: DriverKind, v: ParameterValue, name: String) -> RawColumn {
    RawColumn {
        name: name,
        is_null: v is Null,
        as_int32: match v {
            ParameterValue::Int64(x) => if i32::MIN <= x <= i32::MAX {
                Some(x as i32)
            } else {
                None
            },
            ParameterValue::Bool(b) => if typed_booleans(d) {
                None
            } else {
                Some(
                    if b {
                        1
                    } else {
                        0
                    },
                )
            },
            _ => None,
        },
        as_int64: match v {
            ParameterValue::Int64(x) => Some(x),
            ParameterValue::Bool(b) => if typed_booleans(d) {
                None
            } else {
                Some(
                    if b {
                        1
                    } else {
                        0
                    },
                )
            },
            _ => None,
        },
        as_str: match v {
            ParameterValue::Str(s) => Some(s),
            _ => None,
        },
        as_float64: match v {
            ParameterValue::Float64(b) => Some(b),
            _ => None,
        },
        as_bool: match v {
            ParameterValue::Bool(b) => Some(b),
            _ => None,
        },
        as_datetime: None,
        as_date: None,
        as_time: None,
        as_json: None,
        as_str_array: None,
        as_int_array: None,
    }
}

/// Binding a scalar value and decoding its echo yields the value back.
/// Strings, 64-bit integers and doubles round-trip on all three backends; a
/// boolean round-trips where the backend keeps a boolean column type, so it
/// is left out on the backends that hand it back as an integer.
pub proof fn lemma_scalar_round_trip(d: DriverKind, v: ParameterValue, name: String)
    requires
        scalar_kind(v.kind()),
        v is Bool ==> typed_booleans(d),
    ensures
        decode_column_spec(d, echoed_column(d, v, name)) == v,
{
}

/// On a backend that stores booleans as integers, an echoed boolean decodes
/// to the integer it was stored as: the probe order reaches the integer
/// extraction first.
pub proof fn lemma_bool_echo_on_integer_backends(d: DriverKind, b: bool, name: String)
    requires
        !typed_booleans(d),
    ensures
        decode_column_spec(d, echoed_column(d, ParameterValue::Bool(b), name))
            == ParameterValue::Int64(
            if b {
                1
            } else {
                0
            },
        ),
{
}

} // verus!
