//! The generic value vocabulary that crosses the driver boundary in both
//! directions, and the calendar types it carries.

use vstd::prelude::*;

verus! {

/// The closed set of supported backends.
#[derive(Clone, Copy, Debug, PartialEq, Eq, Structural)]
pub enum DriverKind {
    Postgres,
    MySql,
    Sqlite,
}

/// The kind of a [`ParameterValue`], used to report which kind a backend
/// refused to bind.
#[derive(Clone, Copy, Debug, PartialEq, Eq, Structural)]
pub enum ValueKind {
    Null,
    Bool,
    Int64,
    Float64,
    Str,
    Date,
    Time,
    DateTime,
    Json,
}

/// A calendar date, held as plain numbers with the Gregorian validity rules
/// as its invariant.
#[derive(Clone, Copy, Debug, PartialEq, Eq, Structural)]
pub struct Date {
    pub year: i32,
    pub month: u8,
    pub day: u8,
}

/// A time of day with microsecond precision.
#[derive(Clone, Copy, Debug, PartialEq, Eq, Structural)]
pub struct Time {
    pub hour: u8,
    pub minute: u8,
    pub second: u8,
    pub microsecond: u32,
}

/// A calendar date combined with a time of day.
#[derive(Clone, Copy, Debug, PartialEq, Eq, Structural)]
pub struct DateTime {
    pub date: Date,
    pub time: Time,
}

pub open spec fn leap_year(year: int) -> bool {
    (year % 4 == 0 && year % 100 != 0) || year % 400 == 0
}

pub open spec fn days_in_month(year: int, month: int) -> int {
    if month == 2 {
        if leap_year(year) {
            29
        } else {
            28
        }
    } else if month == 4 || month == 6 || month == 9 || month == 11 {
        30
    } else {
        31
    }
}

impl Date {
    /// Gregorian validity: a real month, and a day that month has.
    pub open spec fn valid(self) -> bool {
        &&& 1 <= self.month <= 12
        &&& 1 <= self.day <= days_in_month(self.year as int, self.month as int)
    }

    /// Builds a date when the fields name a real Gregorian day.
    pub fn new(year: i32, month: u8, day: u8) -> (r: Option<Date>)
        ensures
            r matches Some(d) ==> d == (Date { year, month, day }) && d.valid(),
            r is None ==> !(Date { year, month, day }).valid(),
    {
        let ok = 1 <= month && month <= 12 && 1 <= day && day <= days_in_month_exec(year, month);
        if ok {
            Some(Date { year, month, day })
        } else {
            None
        }
    }
}

/// How many days the given month of the given year has.
pub fn days_in_month_exec(year: i32, month: u8) -> (r: u8)
    requires
        1 <= month <= 12,
    ensures
        r == days_in_month(year as int, month as int),
{
    if month == 2 {
        if (year % 4 == 0 && year % 100 != 0) || year % 400 == 0 {
            29
        } else {
            28
        }
    } else if month == 4 || month == 6 || month == 9 || month == 11 {
        30
    } else {
        31
    }
}

impl Time {
    pub open spec fn valid(self) -> bool {
        &&& self.hour < 24
        &&& self.minute < 60
        &&& self.second < 60
        &&& self.microsecond < 1000000
    }

    /// Builds a time of day when every field is in range.
    pub fn new(hour: u8, minute: u8, second: u8, microsecond: u32) -> (r: Option<Time>)
        ensures
            r matches Some(t) ==> t == (Time { hour, minute, second, microsecond }) && t.valid(),
            r is None ==> !(Time { hour, minute, second, microsecond }).valid(),
    {
        if hour < 24 && minute < 60 && second < 60 && microsecond < 1000000 {
            Some(Time { hour, minute, second, microsecond })
        } else {
            None
        }
    }
}

impl DateTime {
    pub open spec fn valid(self) -> bool {
        self.date.valid() && self.time.valid()
    }

    /// Combines a date and a time of day.
    pub fn new(date: Date, time: Time) -> (r: DateTime)
        ensures
            r == (DateTime { date, time }),
    {
        DateTime { date, time }
    }
}

/// The single vocabulary crossing the driver boundary in both directions.
///
/// A double travels as its IEEE 754 bit pattern, so that the vocabulary stays
/// within exact values; a JSON-compatible nested value travels as its
/// serialized text, which this layer carries through without inspecting it.
#[derive(Clone, Debug, PartialEq, Eq)]
pub enum ParameterValue {
    Null,
    Bool(bool),
    Int64(i64),
    Float64(u64),
    Str(String),
    Date(Date),
    Time(Time),
    DateTime(DateTime),
    Json(String),
}

impl ParameterValue {
    /// The kind tag of this value.
    pub open spec fn kind(self) -> ValueKind {
        match self {
            ParameterValue::Null => ValueKind::Null,
            ParameterValue::Bool(_) => ValueKind::Bool,
            ParameterValue::Int64(_) => ValueKind::Int64,
            ParameterValue::Float64(_) => ValueKind::Float64,
            ParameterValue::Str(_) => ValueKind::Str,
            ParameterValue::Date(_) => ValueKind::Date,
            ParameterValue::Time(_) => ValueKind::Time,
            ParameterValue::DateTime(_) => ValueKind::DateTime,
            ParameterValue::Json(_) => ValueKind::Json,
        }
    }

    /// The kind tag, computed executably.
    pub fn kind_of(&self) -> (k: ValueKind)
        ensures
            k == self.kind(),
    {
        match self {
            ParameterValue::Null => ValueKind::Null,
            ParameterValue::Bool(_) => ValueKind::Bool,
            ParameterValue::Int64(_) => ValueKind::Int64,
            ParameterValue::Float64(_) => ValueKind::Float64,
            ParameterValue::Str(_) => ValueKind::Str,
            ParameterValue::Date(_) => ValueKind::Date,
            ParameterValue::Time(_) => ValueKind::Time,
            ParameterValue::DateTime(_) => ValueKind::DateTime,
            ParameterValue::Json(_) => ValueKind::Json,
        }
    }

    /// An exact copy of this value.
    pub fn duplicate(&self) -> (r: ParameterValue)
        ensures
            r == *self,
    {
        match self {
            ParameterValue::Null => ParameterValue::Null,
            ParameterValue::Bool(b) => ParameterValue::Bool(*b),
            ParameterValue::Int64(i) => ParameterValue::Int64(*i),
            ParameterValue::Float64(bits) => ParameterValue::Float64(*bits),
            ParameterValue::Str(s) => ParameterValue::Str(s.clone()),
            ParameterValue::Date(d) => ParameterValue::Date(*d),
            ParameterValue::Time(t) => ParameterValue::Time(*t),
            ParameterValue::DateTime(dt) => ParameterValue::DateTime(*dt),
            ParameterValue::Json(s) => ParameterValue::Json(s.clone()),
        }
    }
}

} // verus!
