//! Lightweight call checks against fixed lists of well-known function names.
use vstd::prelude::*;
use crate::error::{ParserError, SourceLocation, warnings_are};
use crate::text::{chars_of, decimal, push_decimal, str_equals_chars, to_lowercase, unicode_lowercase};

verus! {

/// Functions that need at least two arguments.
pub open spec fn takes_at_least_two(s: Seq<char>) -> bool {
    s == "coalesce"@ ||
    s == "concat"@ ||
    s == "concat_ws"@ ||
    s == "greatest"@ ||
    s == "least"@ ||
    s == "decode"@ ||
    s == "nullif"@ ||
    s == "nvl"@ ||
    s == "nvl2"@
}

fn listed_at_least_two(s: &Vec<char>) -> (r: bool)
    ensures
        r == takes_at_least_two(s@),
{
    str_equals_chars("coalesce", s) ||
    str_equals_chars("concat", s) ||
    str_equals_chars("concat_ws", s) ||
    str_equals_chars("greatest", s) ||
    str_equals_chars("least", s) ||
    str_equals_chars("decode", s) ||
    str_equals_chars("nullif", s) ||
    str_equals_chars("nvl", s) ||
    str_equals_chars("nvl2", s)
}

/// Functions that take exactly one argument.
pub open spec fn takes_exactly_one(s: Seq<char>) -> bool {
    s == "count"@ ||
    s == "sum"@ ||
    s == "avg"@ ||
    s == "min"@ ||
    s == "max"@ ||
    s == "stddev"@ ||
    s == "stddev_pop"@ ||
    s == "stddev_samp"@ ||
    s == "variance"@ ||
    s == "var_pop"@ ||
    s == "var_samp"@ ||
    s == "bit_and"@ ||
    s == "bit_or"@ ||
    s == "every"@
}

fn listed_exactly_one(s: &Vec<char>) -> (r: bool)
    ensures
        r == takes_exactly_one(s@),
{
    str_equals_chars("count", s) ||
    str_equals_chars("sum", s) ||
    str_equals_chars("avg", s) ||
    str_equals_chars("min", s) ||
    str_equals_chars("max", s) ||
    str_equals_chars("stddev", s) ||
    str_equals_chars("stddev_pop", s) ||
    str_equals_chars("stddev_samp", s) ||
    str_equals_chars("variance", s) ||
    str_equals_chars("var_pop", s) ||
    str_equals_chars("var_samp", s) ||
    str_equals_chars("bit_and", s) ||
    str_equals_chars("bit_or", s) ||
    str_equals_chars("every", s)
}

/// Functions that take no arguments.
pub open spec fn takes_no_args(s: Seq<char>) -> bool {
    s == "now"@ ||
    s == "current_timestamp"@ ||
    s == "current_date"@ ||
    s == "current_time"@ ||
    s == "localtime"@ ||
    s == "localtimestamp"@ ||
    s == "clock_timestamp"@ ||
    s == "statement_timestamp"@ ||
    s == "transaction_timestamp"@ ||
    s == "pi"@ ||
    s == "version"@ ||
    s == "pg_backend_pid"@ ||
    s == "lastval"@
}

fn listed_no_args(s: &Vec<char>) -> (r: bool)
    ensures
        r == takes_no_args(s@),
{
    str_equals_chars("now", s) ||
    str_equals_chars("current_timestamp", s) ||
    str_equals_chars("current_date", s) ||
    str_equals_chars("current_time", s) ||
    str_equals_chars("localtime", s) ||
    str_equals_chars("localtimestamp", s) ||
    str_equals_chars("clock_timestamp", s) ||
    str_equals_chars("statement_timestamp", s) ||
    str_equals_chars("transaction_timestamp", s) ||
    str_equals_chars("pi", s) ||
    str_equals_chars("version", s) ||
    str_equals_chars("pg_backend_pid", s) ||
    str_equals_chars("lastval", s)
}

/// Window functions, which need an OVER clause.
pub open spec fn is_window_function(s: Seq<char>) -> bool {
    s == "row_number"@ ||
    s == "rank"@ ||
    s == "dense_rank"@ ||
    s == "percent_rank"@ ||
    s == "cume_dist"@ ||
    s == "ntile"@ ||
    s == "lag"@ ||
    s == "lead"@ ||
    s == "first_value"@ ||
    s == "last_value"@ ||
    s == "nth_value"@ ||
    s == "ratio_to_report"@
}

fn listed_window(s: &Vec<char>) -> (r: bool)
    ensures
        r == is_window_function(s@),
{
    str_equals_chars("row_number", s) ||
    str_equals_chars("rank", s) ||
    str_equals_chars("dense_rank", s) ||
    str_equals_chars("percent_rank", s) ||
    str_equals_chars("cume_dist", s) ||
    str_equals_chars("ntile", s) ||
    str_equals_chars("lag", s) ||
    str_equals_chars("lead", s) ||
    str_equals_chars("first_value", s) ||
    str_equals_chars("last_value", s) ||
    str_equals_chars("nth_value", s) ||
    str_equals_chars("ratio_to_report", s)
}

/// Aggregates that accept DISTINCT.
pub open spec fn allows_distinct(s: Seq<char>) -> bool {
    s == "count"@ ||
    s == "sum"@ ||
    s == "avg"@ ||
    s == "min"@ ||
    s == "max"@ ||
    s == "array_agg"@ ||
    s == "string_agg"@ ||
    s == "group_concat"@ ||
    s == "wm_concat"@ ||
    s == "corr"@ ||
    s == "covar_pop"@ ||
    s == "covar_samp"@ ||
    s == "regr_avgx"@ ||
    s == "regr_avgy"@ ||
    s == "regr_count"@ ||
    s == "regr_intercept"@ ||
    s == "regr_r2"@ ||
    s == "regr_slope"@ ||
    s == "stddev"@ ||
    s == "stddev_pop"@ ||
    s == "stddev_samp"@ ||
    s == "variance"@ ||
    s == "var_pop"@ ||
    s == "var_samp"@
}

fn listed_distinct(s: &Vec<char>) -> (r: bool)
    ensures
        r == allows_distinct(s@),
{
    str_equals_chars("count", s) ||
    str_equals_chars("sum", s) ||
    str_equals_chars("avg", s) ||
    str_equals_chars("min", s) ||
    str_equals_chars("max", s) ||
    str_equals_chars("array_agg", s) ||
    str_equals_chars("string_agg", s) ||
    str_equals_chars("group_concat", s) ||
    str_equals_chars("wm_concat", s) ||
    str_equals_chars("corr", s) ||
    str_equals_chars("covar_pop", s) ||
    str_equals_chars("covar_samp", s) ||
    str_equals_chars("regr_avgx", s) ||
    str_equals_chars("regr_avgy", s) ||
    str_equals_chars("regr_count", s) ||
    str_equals_chars("regr_intercept", s) ||
    str_equals_chars("regr_r2", s) ||
    str_equals_chars("regr_slope", s) ||
    str_equals_chars("stddev", s) ||
    str_equals_chars("stddev_pop", s) ||
    str_equals_chars("stddev_samp", s) ||
    str_equals_chars("variance", s) ||
    str_equals_chars("var_pop", s) ||
    str_equals_chars("var_samp", s)
}

pub open spec fn msg_distinct_unsupported(name: Seq<char>) -> Seq<char> {
    "Function '"@ + name + "' does not support DISTINCT modifier"@
}

pub open spec fn msg_takes_none(name: Seq<char>, n: nat) -> Seq<char> {
    "Function '"@ + name + "' takes no arguments but "@ + decimal(n) + " were provided"@
}

pub open spec fn msg_exactly_one(name: Seq<char>, n: nat) -> Seq<char> {
    "Function '"@ + name + "' requires exactly 1 argument but "@ + decimal(n) + " were provided"@
}

pub open spec fn msg_at_least_two(name: Seq<char>, n: nat) -> Seq<char> {
    "Function '"@ + name + "' requires at least 2 arguments but "@ + decimal(n) + " were provided"@
}

pub open spec fn msg_missing_over(name: Seq<char>) -> Seq<char> {
    "Window function '"@ + name + "' should have an OVER clause"@
}

/// The warnings for a call of `name` (whose lower-cased form is `lower`), in the order
/// reported: DISTINCT, no-argument functions, one-argument functions, two-or-more-argument
/// functions, window functions without OVER.
pub open spec fn list_messages(name: Seq<char>, lower: Seq<char>, arg_count: nat, has_distinct: bool, has_over: bool) -> Seq<Seq<char>> {
    (if has_distinct && !allows_distinct(lower) { seq![msg_distinct_unsupported(name)] } else { seq![] })
        + (if takes_no_args(lower) && arg_count > 0 { seq![msg_takes_none(name, arg_count)] } else { seq![] })
        + (if takes_exactly_one(lower) && arg_count != 1 { seq![msg_exactly_one(name, arg_count)] } else { seq![] })
        + (if takes_at_least_two(lower) && arg_count < 2 { seq![msg_at_least_two(name, arg_count)] } else { seq![] })
        + (if is_window_function(lower) && !has_over { seq![msg_missing_over(name)] } else { seq![] })
}

fn quoted_message(name: &str, tail: &str) -> (s: String)
    ensures
        s@ == "Function '"@ + name@ + tail@,
{
    let mut s = String::from_str("Function '");
    s.append(name);
    s.append(tail);
    s
}

fn count_message(name: &str, middle: &str, n: usize) -> (s: String)
    ensures
        s@ == "Function '"@ + name@ + middle@ + decimal(n as nat) + " were provided"@,
{
    let mut s = quoted_message(name, middle);
    push_decimal(&mut s, n as u64);
    s.append(" were provided");
    s
}

fn add_warning(w: &mut Vec<ParserError>, message: String, location: SourceLocation, Ghost(msgs): Ghost<Seq<Seq<char>>>)
    requires
        warnings_are(old(w)@, msgs, location),
    ensures
        warnings_are(final(w)@, msgs.push(message@), location),
{
    w.push(ParserError::warning(message, location));
    assert forall|i: int| 0 <= i < final(w)@.len() implies {
        &&& (#[trigger] final(w)@[i]) is Warning
        &&& final(w)@[i]->Warning_message@ == msgs.push(message@)[i]
        &&& final(w)@[i]->Warning_location == location
    } by {
        if i < old(w)@.len() {
            assert(final(w)@[i] == old(w)@[i]);
        }
    }
}

/// Checks a call against the fixed name lists and returns its warnings (if any).
/// Names are compared after Unicode lower-casing; messages quote the name as written.
pub fn validate_function_call(
    name: &str,
    arg_count: usize,
    has_distinct: bool,
    has_over: bool,
    location: SourceLocation,
) -> (w: Vec<ParserError>)
    ensures
        warnings_are(w@, list_messages(name@, unicode_lowercase(name@), arg_count as nat, has_distinct, has_over), location),
{
    let mut w: Vec<ParserError> = Vec::new();
    let ghost mut msgs: Seq<Seq<char>> = seq![];
    let lowered = to_lowercase(name);
    let lower = chars_of(lowered.as_str());

    if has_distinct && !listed_distinct(&lower) {
        let m = quoted_message(name, "' does not support DISTINCT modifier");
        add_warning(&mut w, m, location, Ghost(msgs));
        proof { msgs = msgs.push(msg_distinct_unsupported(name@)); }
    }
    if listed_no_args(&lower) && arg_count > 0 {
        let m = count_message(name, "' takes no arguments but ", arg_count);
        add_warning(&mut w, m, location, Ghost(msgs));
        proof { msgs = msgs.push(msg_takes_none(name@, arg_count as nat)); }
    }
    if listed_exactly_one(&lower) && arg_count != 1 {
        let m = count_message(name, "' requires exactly 1 argument but ", arg_count);
        add_warning(&mut w, m, location, Ghost(msgs));
        proof { msgs = msgs.push(msg_exactly_one(name@, arg_count as nat)); }
    }
    if listed_at_least_two(&lower) && arg_count < 2 {
        let m = count_message(name, "' requires at least 2 arguments but ", arg_count);
        add_warning(&mut w, m, location, Ghost(msgs));
        proof { msgs = msgs.push(msg_at_least_two(name@, arg_count as nat)); }
    }
    if listed_window(&lower) && !has_over {
        let mut m = String::from_str("Window function '");
        m.append(name);
        m.append("' should have an OVER clause");
        add_warning(&mut w, m, location, Ghost(msgs));
        proof { msgs = msgs.push(msg_missing_over(name@)); }
    }
    assert(msgs =~= list_messages(name@, unicode_lowercase(name@), arg_count as nat, has_distinct, has_over));
    w
}

} // verus!
