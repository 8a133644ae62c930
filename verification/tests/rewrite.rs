use hypern_db::binder::placeholders_valid;
use hypern_db::binder::rewrite_sqlite;
use hypern_db::values::ParameterValue;

fn s(v: &str) -> ParameterValue {
    ParameterValue::Str(String::from(v))
}

#[test]
fn rewrites_each_occurrence_and_rebinds_in_order() {
    let params = vec![s("x"), ParameterValue::Int64(7)];
    let query = "SELECT * FROM t WHERE a=$1 AND b=$2 AND c=$1";
    assert!(placeholders_valid(query, params.len()));
    let (text, bound) = rewrite_sqlite(query, &params);
    assert_eq!(text, "SELECT * FROM t WHERE a=? AND b=? AND c=?");
    assert_eq!(bound, vec![s("x"), ParameterValue::Int64(7), s("x")]);
}

#[test]
fn multi_digit_references() {
    let params: Vec<ParameterValue> = (0..12).map(ParameterValue::Int64).collect();
    let query = "$12 $1 $12";
    assert!(placeholders_valid(query, params.len()));
    let (text, bound) = rewrite_sqlite(query, &params);
    assert_eq!(text, "? ? ?");
    assert_eq!(
        bound,
        vec![
            ParameterValue::Int64(11),
            ParameterValue::Int64(0),
            ParameterValue::Int64(11)
        ]
    );
}

#[test]
fn dollar_without_digit_passes_through() {
    let params = vec![s("a")];
    let query = "money$ $$ end $";
    assert!(placeholders_valid(query, params.len()));
    let (text, bound) = rewrite_sqlite(query, &params);
    assert_eq!(text, "money$ $$ end $");
    assert!(bound.is_empty());
}

#[test]
fn placeholder_followed_by_text() {
    let params = vec![s("a"), s("b")];
    let query = "a=$2x";
    assert!(placeholders_valid(query, params.len()));
    let (text, bound) = rewrite_sqlite(query, &params);
    assert_eq!(text, "a=?x");
    assert_eq!(bound, vec![s("b")]);
}

#[test]
fn out_of_range_references_are_invalid() {
    assert!(!placeholders_valid("a=$3", 2));
    assert!(!placeholders_valid("a=$0", 2));
    assert!(placeholders_valid("a=$2", 2));
    assert!(placeholders_valid("no placeholders", 0));
    assert!(!placeholders_valid("a=$99999999999999999999999999", usize::MAX));
}

#[test]
fn empty_query() {
    let params: Vec<ParameterValue> = Vec::new();
    assert!(placeholders_valid("", 0));
    let (text, bound) = rewrite_sqlite("", &params);
    assert_eq!(text, "");
    assert!(bound.is_empty());
}
