//! Per-backend parameter binding.
//!
//! The SQLite-like backend accepts `$1`, `$2`, ... placeholders (1-based) and
//! rewrites each occurrence to its native `?` marker, re-emitting the bound
//! parameter list in rewritten occurrence order; a parameter referenced more
//! than once contributes one bound value per occurrence. The other backends
//! pass query text through unmodified.

use vstd::prelude::*;
use vstd::string::StrSliceExecFns;
use vstd::string::StringExecFns;
use crate::errors::DbError;
use crate::values::DriverKind;
use crate::values::ParameterValue;
use crate::values::ValueKind;

verus! {

/// Relies on `String::push`: appends the given character to the string.
pub assume_specification[ String::push ](s: &mut String, c: char)
    ensures
        final(s)@ == old(s)@.push(c),
;

pub open spec fn is_digit(c: char) -> bool {
    48 <= c as u32 <= 57
}

pub open spec fn digit_val(c: char) -> int {
    c as u32 - 48
}

/// Whether the given character is an ASCII decimal digit.
pub fn is_digit_exec(c: char) -> (b: bool)
    ensures
        b == is_digit(c),
{
    let u = c as u32;
    48 <= u && u <= 57
}

/// The number a digit sequence denotes in base ten.
pub open spec fn digits_value(s: Seq<char>) -> int
    decreases s.len(),
{
    if s.len() == 0 {
        0
    } else {
        digits_value(s.drop_last()) * 10 + digit_val(s.last())
    }
}

pub open spec fn all_digits(s: Seq<char>) -> bool {
    forall|i: int| 0 <= i < s.len() ==> is_digit(#[trigger] s[i])
}

/// How many digits the sequence begins with.
pub open spec fn leading_digits(s: Seq<char>) -> nat
    decreases s.len(),
{
    if s.len() == 0 || !is_digit(s[0]) {
        0
    } else {
        1 + leading_digits(s.subrange(1, s.len() as int))
    }
}

/// The leading-digit count never passes the end, and every position below it
/// holds a digit.
proof fn lemma_leading_digits_run(s: Seq<char>)
    ensures
        leading_digits(s) <= s.len(),
        forall|i: int| 0 <= i < leading_digits(s) ==> is_digit(#[trigger] s[i]),
    decreases s.len(),
{
    if s.len() != 0 && is_digit(s[0]) {
        let t = s.subrange(1, s.len() as int);
        lemma_leading_digits_run(t);
        assert forall|i: int| 0 <= i < leading_digits(s) implies is_digit(#[trigger] s[i]) by {
            if i >= 1 {
                assert(t[i - 1] == s[i]);
                assert(is_digit(t[i - 1]));
            }
        }
    }
}

/// The leading-digit count is exactly the length of the maximal digit run.
proof fn lemma_scan_is_leading(s: Seq<char>, k: int)
    requires
        0 <= k <= s.len(),
        forall|i: int| 0 <= i < k ==> is_digit(#[trigger] s[i]),
        k == s.len() || !is_digit(s[k]),
    ensures
        leading_digits(s) == k,
    decreases s.len(),
{
    if s.len() == 0 {
    } else if k == 0 {
    } else {
        let t = s.subrange(1, s.len() as int);
        assert(forall|i: int| 0 <= i < k - 1 ==> is_digit(#[trigger] t[i]));
        assert(k - 1 == t.len() || !is_digit(t[k - 1]));
        lemma_scan_is_leading(t, k - 1);
    }
}

proof fn lemma_digits_value_nonneg(s: Seq<char>)
    requires
        all_digits(s),
    ensures
        digits_value(s) >= 0,
    decreases s.len(),
{
    if s.len() != 0 {
        assert(all_digits(s.drop_last()));
        lemma_digits_value_nonneg(s.drop_last());
    }
}

/// A digit sequence denotes at least as much as any of its prefixes.
proof fn lemma_digits_prefix(s: Seq<char>, j: int)
    requires
        all_digits(s),
        0 <= j <= s.len(),
    ensures
        digits_value(s.subrange(0, j)) <= digits_value(s),
    decreases s.len() - j,
{
    if j == s.len() {
        assert(s.subrange(0, j) =~= s);
    } else {
        let p = s.subrange(0, j);
        let q = s.subrange(0, j + 1);
        assert(q.drop_last() =~= p);
        assert(all_digits(p));
        lemma_digits_value_nonneg(p);
        assert(digits_value(q) == digits_value(p) * 10 + digit_val(s[j]));
        lemma_digits_prefix(s, j + 1);
    }
}

/// The rewritten query text paired with the 1-based parameter references in
/// occurrence order.
pub open spec fn spec_rewrite(s: Seq<char>) -> (Seq<char>, Seq<int>)
    decreases s.len(),
    via spec_rewrite_decreases
{
    if s.len() == 0 {
        (Seq::<char>::empty(), Seq::<int>::empty())
    } else if s[0] == '$' && s.len() >= 2 && is_digit(s[1]) {
        let k = leading_digits(s.subrange(1, s.len() as int));
        let rest = spec_rewrite(s.subrange(1 + k as int, s.len() as int));
        (seq!['?'] + rest.0, seq![digits_value(s.subrange(1, 1 + k as int))] + rest.1)
    } else {
        let rest = spec_rewrite(s.subrange(1, s.len() as int));
        (seq![s[0]] + rest.0, rest.1)
    }
}

#[via_fn]
proof fn spec_rewrite_decreases(s: Seq<char>) {
    if s.len() != 0 && s[0] == '$' && s.len() >= 2 && is_digit(s[1]) {
        lemma_leading_digits_run(s.subrange(1, s.len() as int));
    }
}

/// Whether every placeholder reference in `s` names one of `n` parameters.
pub open spec fn placeholders_ok(s: Seq<char>, n: int) -> bool
    decreases s.len(),
    via placeholders_ok_decreases
{
    if s.len() == 0 {
        true
    } else if s[0] == '$' && s.len() >= 2 && is_digit(s[1]) {
        let k = leading_digits(s.subrange(1, s.len() as int));
        let v = digits_value(s.subrange(1, 1 + k as int));
        1 <= v <= n && placeholders_ok(s.subrange(1 + k as int, s.len() as int), n)
    } else {
        placeholders_ok(s.subrange(1, s.len() as int), n)
    }
}

#[via_fn]
proof fn placeholders_ok_decreases(s: Seq<char>, n: int) {
    if s.len() != 0 && s[0] == '$' && s.len() >= 2 && is_digit(s[1]) {
        lemma_leading_digits_run(s.subrange(1, s.len() as int));
    }
}

/// The bound parameter list after the rewrite: one value per occurrence, each
/// a copy of the parameter its placeholder names.
pub open spec fn rewritten_params(s: Seq<char>, ps: Seq<ParameterValue>) -> Seq<ParameterValue> {
    spec_rewrite(s).1.map_values(|r: int| ps[r - 1])
}

/// Counts the digits of `s` starting at `from`.
fn digit_run_len(s: &str, from: usize) -> (k: usize)
    requires
        from <= s@.len(),
    ensures
        from + k <= s@.len(),
        k == leading_digits(s@.subrange(from as int, s@.len() as int)),
{
    let len = s.unicode_len();
    let mut j: usize = from;
    while j < len && is_digit_exec(s.get_char(j))
        invariant
            from <= j <= len,
            len == s@.len(),
            forall|i: int| from <= i < j ==> is_digit(#[trigger] s@[i]),
        decreases len - j,
    {
        j = j + 1;
    }
    proof {
        let t = s@.subrange(from as int, s@.len() as int);
        assert forall|i: int| 0 <= i < j - from implies is_digit(#[trigger] t[i]) by {
            assert(t[i] == s@[from + i]);
        }
        assert(j - from == t.len() || !is_digit(t[j - from]));
        lemma_scan_is_leading(t, j - from);
    }
    j - from
}

/// Reads the value of the digit run `s[from .. from + k]`, known to stay
/// within `bound`.
fn digits_run_value(s: &str, from: usize, k: usize, bound: usize) -> (v: usize)
    requires
        from + k <= s@.len(),
        forall|i: int| from <= i < from + k ==> is_digit(#[trigger] s@[i]),
        digits_value(s@.subrange(from as int, (from + k) as int)) <= bound,
    ensures
        v == digits_value(s@.subrange(from as int, (from + k) as int)),
{
    let ghost run = s@.subrange(from as int, (from + k) as int);
    proof {
        assert forall|i: int| 0 <= i < run.len() implies is_digit(#[trigger] run[i]) by {
            assert(run[i] == s@[from + i]);
        }
    }
    let len = s.unicode_len();
    let mut acc: usize = 0;
    let mut j: usize = 0;
    while j < k
        invariant
            0 <= j <= k,
            from + k <= s@.len(),
            len == s@.len(),
            run == s@.subrange(from as int, (from + k) as int),
            all_digits(run),
            digits_value(run) <= bound,
            acc == digits_value(run.subrange(0, j as int)),
        decreases k - j,
    {
        let c = s.get_char(from + j);
        proof {
            assert(run[j as int] == s@[(from + j) as int]);
            assert(is_digit(c));
        }
        let d = (c as u32) - 48;
        proof {
            let p = run.subrange(0, j as int);
            let q = run.subrange(0, (j + 1) as int);
            assert(q.drop_last() =~= p);
            assert(q.last() == run[j as int]);
            assert(digits_value(q) == digits_value(p) * 10 + digit_val(run[j as int]));
            lemma_digits_prefix(run, j + 1);
            lemma_digits_value_nonneg(p);
        }
        acc = acc * 10 + (d as usize);
        j = j + 1;
    }
    proof {
        assert(run.subrange(0, k as int) =~= run);
    }
    acc
}

/// Reads the value of the digit run `s[from .. from + k]` when it does not
/// exceed `cap`; reports `None` as soon as it would.
fn digits_run_value_capped(s: &str, from: usize, k: usize, cap: usize) -> (v: Option<usize>)
    requires
        from + k <= s@.len(),
        forall|i: int| from <= i < from + k ==> is_digit(#[trigger] s@[i]),
    ensures
        match v {
            Some(x) => x == digits_value(s@.subrange(from as int, (from + k) as int)) && x <= cap,
            None => digits_value(s@.subrange(from as int, (from + k) as int)) > cap,
        },
{
    let ghost run = s@.subrange(from as int, (from + k) as int);
    proof {
        assert forall|i: int| 0 <= i < run.len() implies is_digit(#[trigger] run[i]) by {
            assert(run[i] == s@[from + i]);
        }
    }
    let len = s.unicode_len();
    let mut acc: usize = 0;
    let mut j: usize = 0;
    while j < k
        invariant
            0 <= j <= k,
            from + k <= s@.len(),
            len == s@.len(),
            run == s@.subrange(from as int, (from + k) as int),
            all_digits(run),
            acc == digits_value(run.subrange(0, j as int)),
            acc <= cap,
        decreases k - j,
    {
        let c = s.get_char(from + j);
        proof {
            assert(run[j as int] == s@[(from + j) as int]);
            assert(is_digit(c));
        }
        let d = ((c as u32) - 48) as usize;
        proof {
            let p = run.subrange(0, j as int);
            let q = run.subrange(0, (j + 1) as int);
            assert(q.drop_last() =~= p);
            assert(q.last() == run[j as int]);
            assert(digits_value(q) == digits_value(p) * 10 + digit_val(run[j as int]));
            lemma_digits_value_nonneg(p);
        }
        if acc > cap / 10 || (acc == cap / 10 && d > cap % 10) {
            proof {
                let q = run.subrange(0, (j + 1) as int);
                assert(digits_value(q) > cap);
                lemma_digits_prefix(run, j + 1);
            }
            return None;
        }
        acc = acc * 10 + d;
        j = j + 1;
    }
    proof {
        assert(run.subrange(0, k as int) =~= run);
    }
    Some(acc)
}

/// Rewrites the remainder `s`, appending rewritten text to `out` and one
/// parameter copy per placeholder occurrence to `out_params`.
fn rewrite_rec(
    s: &str,
    params: &Vec<ParameterValue>,
    out: &mut String,
    out_params: &mut Vec<ParameterValue>,
)
    requires
        placeholders_ok(s@, params@.len() as int),
    ensures
        final(out)@ == old(out)@ + spec_rewrite(s@).0,
        final(out_params)@ == old(out_params)@ + rewritten_params(s@, params@),
    decreases s@.len(),
{
    let len = s.unicode_len();
    if len == 0 {
        proof {
            assert(out@ =~= old(out)@ + spec_rewrite(s@).0);
            assert(rewritten_params(s@, params@) =~= Seq::<ParameterValue>::empty());
            assert(out_params@ =~= old(out_params)@ + rewritten_params(s@, params@));
        }
        return;
    }
    let c0 = s.get_char(0);
    if c0 == '$' && len >= 2 && is_digit_exec(s.get_char(1)) {
        let k = digit_run_len(s, 1);
        let ghost tail = s@.subrange(1, s@.len() as int);
        let ghost digits = s@.subrange(1, (1 + k) as int);
        proof {
            assert(k == leading_digits(tail));
            assert forall|i: int| 1 <= i < 1 + k implies is_digit(#[trigger] s@[i]) by {
                lemma_leading_digits_run(tail);
                assert(tail[i - 1] == s@[i]);
            }
            // Unfold the validity premise for this leading placeholder.
            assert(1 <= digits_value(digits) <= params@.len());
        }
        let v = digits_run_value(s, 1, k, params.len());
        out.push('?');
        let idx = v - 1;
        let copied = params[idx].duplicate();
        out_params.push(copied);
        let ghost mid_out = out@;
        let ghost mid_params = out_params@;
        let rest = s.substring_char(1 + k, len);
        proof {
            assert(rest@ == s@.subrange((1 + k) as int, s@.len() as int));
            assert(placeholders_ok(rest@, params@.len() as int));
        }
        rewrite_rec(rest, params, out, out_params);
        proof {
            let r = spec_rewrite(s@);
            let rr = spec_rewrite(rest@);
            assert(r.0 =~= seq!['?'] + rr.0);
            assert(r.1 =~= seq![digits_value(digits)] + rr.1);
            assert(mid_out =~= old(out)@ + seq!['?']);
            assert(out@ =~= old(out)@ + r.0);
            assert(rewritten_params(s@, params@) =~= seq![params@[v - 1]] + rewritten_params(
                rest@,
                params@,
            ));
            assert(mid_params =~= old(out_params)@ + seq![params@[v - 1]]);
            assert(out_params@ =~= old(out_params)@ + rewritten_params(s@, params@));
        }
    } else {
        out.push(c0);
        let ghost mid_out = out@;
        let rest = s.substring_char(1, len);
        proof {
            assert(rest@ == s@.subrange(1, s@.len() as int));
            assert(placeholders_ok(rest@, params@.len() as int));
        }
        rewrite_rec(rest, params, out, out_params);
        proof {
            let r = spec_rewrite(s@);
            let rr = spec_rewrite(rest@);
            assert(r.0 =~= seq![s@[0]] + rr.0);
            assert(r.1 =~= rr.1);
            assert(mid_out =~= old(out)@ + seq![s@[0]]);
            assert(out@ =~= old(out)@ + r.0);
            assert(rewritten_params(s@, params@) =~= rewritten_params(rest@, params@));
            assert(out_params@ =~= old(out_params)@ + rewritten_params(s@, params@));
        }
    }
}

/// Rewrites `$n` placeholders to the native `?` marker and re-emits the bound
/// parameters in occurrence order.
pub fn rewrite_sqlite(query: &str, params: &Vec<ParameterValue>) -> (r: (
    String,
    Vec<ParameterValue>,
))
    requires
        placeholders_ok(query@, params@.len() as int),
    ensures
        r.0@ == spec_rewrite(query@).0,
        r.1@ == rewritten_params(query@, params@),
{
    let mut out = String::new();
    let mut out_params: Vec<ParameterValue> = Vec::new();
    rewrite_rec(query, params, &mut out, &mut out_params);
    proof {
        assert(out@ =~= spec_rewrite(query@).0);
        assert(out_params@ =~= rewritten_params(query@, params@));
    }
    (out, out_params)
}

/// Whether every placeholder reference in `query` names one of `n` parameters;
/// callers check this before asking the SQLite-like binder to rewrite.
pub fn placeholders_valid(query: &str, n: usize) -> (r: bool)
    ensures
        r == placeholders_ok(query@, n as int),
    decreases query@.len(),
{
    let len = query.unicode_len();
    if len == 0 {
        return true;
    }
    let c0 = query.get_char(0);
    if c0 == '$' && len >= 2 && is_digit_exec(query.get_char(1)) {
        let k = digit_run_len(query, 1);
        let ghost tail = query@.subrange(1, query@.len() as int);
        let ghost digits = query@.subrange(1, (1 + k) as int);
        proof {
            assert(k == leading_digits(tail));
            assert forall|i: int| 1 <= i < 1 + k implies is_digit(#[trigger] query@[i]) by {
                lemma_leading_digits_run(tail);
                assert(tail[i - 1] == query@[i]);
            }
        }
        match digits_run_value_capped(query, 1, k, n) {
            Some(v) => {
                if v < 1 {
                    return false;
                }
                let rest = query.substring_char(1 + k, len);
                let r = placeholders_valid(rest, n);
                proof {
                    assert(rest@ == query@.subrange((1 + k) as int, query@.len() as int));
                }
                r
            },
            None => false,
        }
    } else {
        let rest = query.substring_char(1, len);
        let r = placeholders_valid(rest, n);
        proof {
            assert(rest@ == query@.subrange(1, query@.len() as int));
        }
        r
    }
}

/// A statement ready for the native driver: the backend-native query text and
/// the values to bind positionally, in order.
#[derive(Clone, Debug, PartialEq, Eq)]
pub struct BoundQuery {
    pub text: String,
    pub params: Vec<ParameterValue>,
}

/// Which value kinds each backend's binder accepts. The Postgres-like binder
/// takes the whole vocabulary; the MySQL-like and SQLite-like binders take
/// the four probe-order scalars only.
pub open spec fn driver_supports(d: DriverKind, k: ValueKind) -> bool {
    match d {
        DriverKind::Postgres => true,
        DriverKind::MySql => scalar_bind_kind(k),
        DriverKind::Sqlite => scalar_bind_kind(k),
    }
}

pub open spec fn scalar_bind_kind(k: ValueKind) -> bool {
    k == ValueKind::Str || k == ValueKind::Int64 || k == ValueKind::Float64 || k == ValueKind::Bool
}

/// Whether the backend's binder accepts this value kind.
pub fn driver_supports_exec(d: DriverKind, k: ValueKind) -> (b: bool)
    ensures
        b == driver_supports(d, k),
{
    match d {
        DriverKind::Postgres => true,
        DriverKind::MySql => matches!(
            k,
            ValueKind::Str | ValueKind::Int64 | ValueKind::Float64 | ValueKind::Bool
        ),
        DriverKind::Sqlite => matches!(
            k,
            ValueKind::Str | ValueKind::Int64 | ValueKind::Float64 | ValueKind::Bool
        ),
    }
}

/// The name reported for a refused value kind.
pub open spec fn kind_name_spec(k: ValueKind) -> Seq<char> {
    match k {
        ValueKind::Null => "null"@,
        ValueKind::Bool => "bool"@,
        ValueKind::Int64 => "int64"@,
        ValueKind::Float64 => "float64"@,
        ValueKind::Str => "string"@,
        ValueKind::Date => "date"@,
        ValueKind::Time => "time"@,
        ValueKind::DateTime => "datetime"@,
        ValueKind::Json => "json"@,
    }
}

/// The name reported for a refused value kind.
pub fn kind_name(k: ValueKind) -> (r: String)
    ensures
        r@ == kind_name_spec(k),
{
    match k {
        ValueKind::Null => String::from_str("null"),
        ValueKind::Bool => String::from_str("bool"),
        ValueKind::Int64 => String::from_str("int64"),
        ValueKind::Float64 => String::from_str("float64"),
        ValueKind::Str => String::from_str("string"),
        ValueKind::Date => String::from_str("date"),
        ValueKind::Time => String::from_str("time"),
        ValueKind::DateTime => String::from_str("datetime"),
        ValueKind::Json => String::from_str("json"),
    }
}

/// The kind of the first value from position `i` on that the backend refuses.
pub open spec fn first_unsupported_from(
    d: DriverKind,
    ps: Seq<ParameterValue>,
    i: int,
) -> Option<ValueKind>
    decreases ps.len() - i,
{
    if i < 0 || i >= ps.len() {
        None
    } else if !driver_supports(d, ps[i].kind()) {
        Some(ps[i].kind())
    } else {
        first_unsupported_from(d, ps, i + 1)
    }
}

/// The kind of the first value in the bound list that the backend refuses.
pub open spec fn first_unsupported(d: DriverKind, ps: Seq<ParameterValue>) -> Option<ValueKind> {
    first_unsupported_from(d, ps, 0)
}

/// The query text the driver receives: rewritten for the SQLite-like backend,
/// passed through for the others.
pub open spec fn bound_text_spec(d: DriverKind, q: Seq<char>) -> Seq<char> {
    if d == DriverKind::Sqlite {
        spec_rewrite(q).0
    } else {
        q
    }
}

/// The values bound positionally: one per placeholder occurrence for the
/// SQLite-like backend, the given list for the others.
pub open spec fn bound_params_spec(d: DriverKind, q: Seq<char>, ps: Seq<ParameterValue>) -> Seq<
    ParameterValue,
> {
    if d == DriverKind::Sqlite {
        rewritten_params(q, ps)
    } else {
        ps
    }
}

/// Checks each value in order and reports the first one the backend refuses.
fn scan_supported(d: DriverKind, ps: &Vec<ParameterValue>) -> (r: Option<ValueKind>)
    ensures
        r == first_unsupported(d, ps@),
{
    let n = ps.len();
    let mut i: usize = 0;
    while i < n
        invariant
            0 <= i <= n,
            n == ps@.len(),
            first_unsupported(d, ps@) == first_unsupported_from(d, ps@, i as int),
        decreases n - i,
    {
        let k = ps[i].kind_of();
        if !driver_supports_exec(d, k) {
            return Some(k);
        }
        i = i + 1;
    }
    None
}

/// Binds a statement for the given backend: rewrites placeholders where the
/// backend wants its native marker, and refuses the first value whose kind
/// the backend cannot bind.
pub fn bind_for(driver: DriverKind, query: &str, params: &Vec<ParameterValue>) -> (r: Result<
    BoundQuery,
    DbError,
>)
    requires
        driver == DriverKind::Sqlite ==> placeholders_ok(query@, params@.len() as int),
    ensures
        match r {
            Ok(b) => {
                &&& first_unsupported(driver, bound_params_spec(driver, query@, params@)) is None
                &&& b.text@ == bound_text_spec(driver, query@)
                &&& b.params@ == bound_params_spec(driver, query@, params@)
            },
            Err(e) => first_unsupported(driver, bound_params_spec(driver, query@, params@))
                matches Some(k) && (e matches DbError::UnsupportedParameterType(s) && s@
                == kind_name_spec(k)),
        },
{
    if matches!(driver, DriverKind::Sqlite) {
        let (text, eff) = rewrite_sqlite(query, params);
        match scan_supported(driver, &eff) {
            None => Ok(BoundQuery { text, params: eff }),
            Some(k) => Err(DbError::UnsupportedParameterType(kind_name(k))),
        }
    } else {
        match scan_supported(driver, params) {
            None => {
                let text = query.to_owned();
                let mut copied: Vec<ParameterValue> = Vec::new();
                let n = params.len();
                let mut i: usize = 0;
                while i < n
                    invariant
                        0 <= i <= n,
                        n == params@.len(),
                        copied@ =~= params@.subrange(0, i as int),
                    decreases n - i,
                {
                    copied.push(params[i].duplicate());
                    proof {
                        assert(copied@ =~= params@.subrange(0, i + 1 as int));
                    }
                    i = i + 1;
                }
                proof {
                    assert(copied@ =~= params@);
                }
                Ok(BoundQuery { text, params: copied })
            },
            Some(k) => Err(DbError::UnsupportedParameterType(kind_name(k))),
        }
    }
}

} // verus!
