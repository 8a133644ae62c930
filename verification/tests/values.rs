use hypern_db::values::Date;
use hypern_db::values::DateTime;
use hypern_db::values::ParameterValue;
use hypern_db::values::Time;
use hypern_db::values::ValueKind;
use hypern_db::values::days_in_month_exec;

#[test]
fn leap_year_february() {
    assert!(Date::new(2024, 2, 29).is_some());
    assert!(Date::new(2023, 2, 29).is_none());
    assert!(Date::new(1900, 2, 29).is_none());
    assert!(Date::new(2000, 2, 29).is_some());
}

#[test]
fn month_and_day_bounds() {
    assert!(Date::new(2021, 13, 1).is_none());
    assert!(Date::new(2021, 0, 1).is_none());
    assert!(Date::new(2021, 4, 31).is_none());
    assert!(Date::new(2021, 4, 30).is_some());
    assert!(Date::new(2021, 12, 31).is_some());
    assert!(Date::new(2021, 1, 0).is_none());
}

#[test]
fn days_per_month() {
    assert_eq!(days_in_month_exec(2021, 1), 31);
    assert_eq!(days_in_month_exec(2021, 2), 28);
    assert_eq!(days_in_month_exec(2020, 2), 29);
    assert_eq!(days_in_month_exec(2021, 9), 30);
}

#[test]
fn time_bounds() {
    assert!(Time::new(23, 59, 59, 999_999).is_some());
    assert!(Time::new(24, 0, 0, 0).is_none());
    assert!(Time::new(0, 60, 0, 0).is_none());
    assert!(Time::new(0, 0, 60, 0).is_none());
    assert!(Time::new(0, 0, 0, 1_000_000).is_none());
}

#[test]
fn datetime_combines() {
    let d = Date::new(1999, 12, 31).unwrap();
    let t = Time::new(23, 59, 59, 0).unwrap();
    let dt = DateTime::new(d, t);
    assert_eq!(dt.date, d);
    assert_eq!(dt.time, t);
}

#[test]
fn kinds_and_duplicates() {
    let v = ParameterValue::Str(String::from("hello"));
    assert_eq!(v.kind_of(), ValueKind::Str);
    assert_eq!(v.duplicate(), v);
    let v = ParameterValue::Float64(42.5f64.to_bits());
    assert_eq!(v.kind_of(), ValueKind::Float64);
    assert_eq!(v.duplicate(), v);
    let v = ParameterValue::Null;
    assert_eq!(v.kind_of(), ValueKind::Null);
    let v = ParameterValue::Json(String::from("{\"a\":[1,2]}"));
    assert_eq!(v.kind_of(), ValueKind::Json);
    assert_eq!(v.duplicate(), v);
}
