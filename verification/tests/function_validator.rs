use ogsql_parser::error::SourceLocation;
use ogsql_parser::function_validator::validate_function_call;

fn loc() -> SourceLocation {
    SourceLocation::default()
}

#[test]
fn test_coalesce_too_few() {
    let w = validate_function_call("coalesce", 1, false, false, loc());
    assert!(w.iter().any(|e| e.to_string().contains("at least 2")));
}

#[test]
fn test_coalesce_ok() {
    assert!(validate_function_call("coalesce", 2, false, false, loc()).is_empty());
}

#[test]
fn test_count_no_args() {
    let w = validate_function_call("count", 0, false, false, loc());
    assert!(w.iter().any(|e| e.to_string().contains("exactly 1")));
}

#[test]
fn test_window_no_over() {
    let w = validate_function_call("row_number", 0, false, false, loc());
    assert!(w.iter().any(|e| e.to_string().contains("OVER clause")));
}

#[test]
fn test_window_with_over() {
    assert!(validate_function_call("row_number", 0, false, true, loc()).is_empty());
}

#[test]
fn test_distinct_on_non_aggregate() {
    let w = validate_function_call("upper", 1, true, false, loc());
    assert!(w.iter().any(|e| e.to_string().contains("DISTINCT")));
}

#[test]
fn test_distinct_on_aggregate() {
    assert!(validate_function_call("count", 1, true, false, loc()).is_empty());
}

#[test]
fn test_now_with_args() {
    let w = validate_function_call("now", 1, false, false, loc());
    assert!(w.iter().any(|e| e.to_string().contains("no arguments")));
}
