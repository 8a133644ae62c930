//! The bind-side probe policy.
//!
//! Loosely-typed input is resolved by sequential trial-extraction in a fixed
//! probe order: string, 64-bit integer, double, boolean, datetime, date,
//! time, JSON-compatible container. The first successful extraction wins, so
//! a value extractable as several kinds always binds as the earliest matching
//! kind (a numeric-looking string binds as a string, not a number). A value
//! matching no probe is refused with its declared type's name.

use vstd::prelude::*;
use crate::errors::DbError;
use crate::values::Date;
use crate::values::DateTime;
use crate::values::ParameterValue;
use crate::values::Time;

verus! {

/// A loosely-typed input value, presented as its candidate extractions.
/// Each field holds what the corresponding trial extraction would yield,
/// or nothing where that extraction fails.
pub struct LooseValue {
    /// The input is the distinguished "no value" of its source language.
    pub is_none: bool,
    pub as_str: Option<String>,
    pub as_int64: Option<i64>,
    /// IEEE 754 bit pattern of the extracted double.
    pub as_float64: Option<u64>,
    pub as_bool: Option<bool>,
    pub as_datetime: Option<DateTime>,
    pub as_date: Option<Date>,
    pub as_time: Option<Time>,
    /// Serialized text of the extracted JSON-compatible container.
    pub as_json: Option<String>,
    /// The declared type of the input, reported when no probe matches.
    pub declared_type: String,
}

/// What the fixed probe order resolves the input to, if anything.
pub open spec fn resolve_spec(v: LooseValue) -> Option<ParameterValue> {
    if v.is_none {
        Some(ParameterValue::Null)
    } else if v.as_str is Some {
        Some(ParameterValue::Str(v.as_str->Some_0))
    } else if v.as_int64 is Some {
        Some(ParameterValue::Int64(v.as_int64->Some_0))
    } else if v.as_float64 is Some {
        Some(ParameterValue::Float64(v.as_float64->Some_0))
    } else if v.as_bool is Some {
        Some(ParameterValue::Bool(v.as_bool->Some_0))
    } else if v.as_datetime is Some {
        Some(ParameterValue::DateTime(v.as_datetime->Some_0))
    } else if v.as_date is Some {
        Some(ParameterValue::Date(v.as_date->Some_0))
    } else if v.as_time is Some {
        Some(ParameterValue::Time(v.as_time->Some_0))
    } else if v.as_json is Some {
        Some(ParameterValue::Json(v.as_json->Some_0))
    } else {
        None
    }
}

/// Resolves a loosely-typed input to its vocabulary value by the fixed probe
/// order, or refuses it with its declared type's name.
pub fn resolve_parameter(v: &LooseValue) -> (r: Result<ParameterValue, DbError>)
    ensures
        match r {
            Ok(pv) => resolve_spec(*v) == Some(pv),
            Err(e) => resolve_spec(*v) is None && e == DbError::UnsupportedParameterType(
                v.declared_type,
            ),
        },
{
    if v.is_none {
        Ok(ParameterValue::Null)
    } else if let Some(s) = &v.as_str {
        Ok(ParameterValue::Str(s.clone()))
    } else if let Some(i) = &v.as_int64 {
        Ok(ParameterValue::Int64(*i))
    } else if let Some(f) = &v.as_float64 {
        Ok(ParameterValue::Float64(*f))
    } else if let Some(b) = &v.as_bool {
        Ok(ParameterValue::Bool(*b))
    } else if let Some(dt) = &v.as_datetime {
        Ok(ParameterValue::DateTime(*dt))
    } else if let Some(d) = &v.as_date {
        Ok(ParameterValue::Date(*d))
    } else if let Some(t) = &v.as_time {
        Ok(ParameterValue::Time(*t))
    } else if let Some(j) = &v.as_json {
        Ok(ParameterValue::Json(j.clone()))
    } else {
        Err(DbError::UnsupportedParameterType(v.declared_type.clone()))
    }
}

} // verus!
