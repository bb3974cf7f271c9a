use ogsql_parser::error::{ParserError, SourceLocation};
use ogsql_parser::function_registry::{
    CompatMode, Distribution, FuncCategory, FuncDomain, FuncMetaOwned, FunctionRegistry,
};

fn loc() -> SourceLocation {
    SourceLocation::default()
}

fn entry(
    name: &str,
    category: FuncCategory,
    domain: FuncDomain,
    min_args: u8,
    max_args: Option<u8>,
    supports_distinct: bool,
    compat: u8,
    distribution: Distribution,
) -> FuncMetaOwned {
    FuncMetaOwned {
        name: name.to_string(),
        category,
        domain,
        min_args,
        max_args,
        supports_distinct,
        compat: CompatMode(compat),
        distribution,
    }
}

fn message(e: &ParserError) -> String {
    match e {
        ParserError::Warning { message, .. } => message.clone(),
        _ => String::new(),
    }
}

#[test]
fn test_registry_load_from_json_str() {
    let reg = FunctionRegistry::new().with_extensions(vec![entry(
        "custom_encrypt",
        FuncCategory::Scalar,
        FuncDomain::Crypto,
        1,
        Some(2),
        false,
        7,
        Distribution::default(),
    )]);
    let meta = reg.lookup("custom_encrypt").expect("extension func should be found");
    assert_eq!(meta.category, FuncCategory::Scalar);
    assert_eq!(meta.domain, FuncDomain::Crypto);
    assert_eq!(meta.min_args, 1);
    assert_eq!(meta.max_args, Some(2));
}

#[test]
fn test_registry_extension_overrides_core() {
    let reg = FunctionRegistry::new().with_extensions(vec![entry(
        "count",
        FuncCategory::Scalar,
        FuncDomain::Other,
        0,
        None,
        false,
        7,
        Distribution::default(),
    )]);
    let meta = reg.lookup("count").expect("count should be found");
    assert_eq!(meta.category, FuncCategory::Scalar);
    assert_eq!(meta.domain, FuncDomain::Other);
    assert!(meta.max_args.is_none());
}

#[test]
fn test_registry_multiple_extensions() {
    let reg = FunctionRegistry::new().with_extensions(vec![
        entry("func_a", FuncCategory::Scalar, FuncDomain::Math, 1, Some(1), false, 1, Distribution::default()),
        entry("func_b", FuncCategory::Aggregate, FuncDomain::Aggregate, 1, None, true, 7, Distribution::default()),
    ]);
    let a = reg.lookup("func_a").unwrap();
    assert_eq!(a.category, FuncCategory::Scalar);
    assert_eq!(a.domain, FuncDomain::Math);
    assert!(a.compat.contains(CompatMode::A_FORMAT()));
    assert!(!a.compat.contains(CompatMode::B_FORMAT()));

    let b = reg.lookup("func_b").unwrap();
    assert_eq!(b.category, FuncCategory::Aggregate);
    assert!(b.supports_distinct);
}

#[test]
fn test_registry_empty_json_array() {
    let reg = FunctionRegistry::new().with_extensions(Vec::new());
    assert!(reg.lookup("count").is_some());
    assert!(reg.lookup("custom_nonexistent").is_none());
}

#[test]
fn test_registry_validate_extension_func() {
    let reg = FunctionRegistry::new().with_extensions(vec![entry(
        "my_agg",
        FuncCategory::Aggregate,
        FuncDomain::Aggregate,
        1,
        Some(2),
        true,
        7,
        Distribution::default(),
    )]);
    let w = reg.validate("my_agg", 5, false, false, false, loc());
    assert!(w.iter().any(|e| e.to_string().contains("at most 2")));
}

#[test]
fn test_registry_validate_extension_window_no_over() {
    let reg = FunctionRegistry::new().with_extensions(vec![entry(
        "custom_window",
        FuncCategory::Window,
        FuncDomain::Window,
        0,
        Some(0),
        false,
        7,
        Distribution::default(),
    )]);
    let w = reg.validate("custom_window", 0, false, false, false, loc());
    assert!(w.iter().any(|e| e.to_string().contains("OVER")));
}

#[test]
fn test_registry_extension_commercial_only() {
    let reg = FunctionRegistry::new().with_extensions(vec![entry(
        "dbe_test_commercial",
        FuncCategory::Scalar,
        FuncDomain::Other,
        1,
        Some(1),
        false,
        7,
        Distribution(2),
    )]);
    let meta = reg.lookup("dbe_test_commercial").unwrap();
    assert!(meta.distribution.is_commercial_only());
    assert!(!meta.distribution.contains(Distribution::OPENGAUSS()));
}

#[test]
fn test_registry_extension_defaults_to_both() {
    let reg = FunctionRegistry::new().with_extensions(vec![entry(
        "dbe_test_default",
        FuncCategory::Scalar,
        FuncDomain::Other,
        1,
        Some(1),
        false,
        7,
        Distribution::default(),
    )]);
    let meta = reg.lookup("dbe_test_default").unwrap();
    assert_eq!(meta.distribution, Distribution::BOTH());
}

// ── laws on concrete values ─────────────────────────────────────

#[test]
fn registry_last_entry_of_a_name_wins() {
    let reg = FunctionRegistry::new().with_extensions(vec![
        entry("My_Func", FuncCategory::Scalar, FuncDomain::Math, 1, Some(1), false, 7, Distribution::default()),
        entry("other", FuncCategory::Scalar, FuncDomain::Math, 0, None, false, 7, Distribution::default()),
        entry("MY_FUNC", FuncCategory::Aggregate, FuncDomain::Json, 2, Some(3), true, 4, Distribution(2)),
    ]);
    let m = reg.lookup("my_func").unwrap();
    assert_eq!(m.category, FuncCategory::Aggregate);
    assert_eq!(m.domain, FuncDomain::Json);
    assert_eq!(m.min_args, 2);
    assert_eq!(m.max_args, Some(3));
    assert_eq!(m.name, "");
}

#[test]
fn registry_later_call_replaces_earlier_entries() {
    let reg = FunctionRegistry::new()
        .with_extensions(vec![entry("f", FuncCategory::Scalar, FuncDomain::Math, 1, Some(1), false, 7, Distribution::default())])
        .with_extensions(vec![entry("F", FuncCategory::Window, FuncDomain::Window, 0, Some(0), false, 7, Distribution::default())]);
    assert_eq!(reg.lookup("f").unwrap().category, FuncCategory::Window);
}

#[test]
fn registry_extensions_leave_other_names() {
    let base = FunctionRegistry::new();
    let reg = FunctionRegistry::new().with_extensions(vec![entry(
        "custom",
        FuncCategory::Scalar,
        FuncDomain::Other,
        0,
        None,
        false,
        7,
        Distribution::default(),
    )]);
    let a = base.lookup("upper").unwrap();
    let b = reg.lookup("upper").unwrap();
    assert_eq!(a.name, b.name);
    assert_eq!(a.category, b.category);
    assert_eq!(a.min_args, b.min_args);
    assert_eq!(a.name, "upper");
}

#[test]
fn registry_lookup_ignores_case_of_extension_names() {
    let reg = FunctionRegistry::new().with_extensions(vec![entry(
        "MixedCase",
        FuncCategory::Scalar,
        FuncDomain::Other,
        0,
        None,
        false,
        7,
        Distribution::default(),
    )]);
    assert!(reg.lookup("mixedcase").is_some());
    assert!(reg.lookup("MIXEDCASE").is_some());
    assert!(reg.lookup("mixed_case").is_none());
}

#[test]
fn registry_validate_names_function_as_written() {
    let reg = FunctionRegistry::new();
    let w = reg.validate("UPPER", 1, true, false, false, loc());
    assert_eq!(w.len(), 1);
    assert_eq!(message(&w[0]), "DISTINCT is not supported for function UPPER");
}

#[test]
fn registry_validate_variadic_skips_arity() {
    let reg = FunctionRegistry::new().with_extensions(vec![entry(
        "two",
        FuncCategory::Scalar,
        FuncDomain::Other,
        2,
        Some(2),
        false,
        7,
        Distribution::default(),
    )]);
    assert_eq!(reg.validate("two", 5, false, false, true, loc()).len(), 0);
    let w = reg.validate("two", 5, false, false, false, loc());
    assert_eq!(w.len(), 1);
    assert_eq!(message(&w[0]), "function two requires exactly 2 argument(s)");
}

#[test]
fn registry_well_formed_call_has_no_warnings() {
    let reg = FunctionRegistry::new().with_extensions(vec![entry(
        "win",
        FuncCategory::Window,
        FuncDomain::Window,
        1,
        Some(3),
        true,
        7,
        Distribution::default(),
    )]);
    assert!(reg.validate("win", 2, true, true, false, loc()).is_empty());
    let w = reg.validate("win", 4, false, false, false, loc());
    assert_eq!(w.len(), 2);
    assert_eq!(message(&w[0]), "function win takes at most 3 argument(s)");
    assert_eq!(message(&w[1]), "window function win should have OVER clause");
}

#[test]
fn compat_union_contains_operands() {
    for a in 1u8..8 {
        for b in 0u8..8 {
            assert!((CompatMode(a) | CompatMode(b)).contains(CompatMode(a)));
            assert!((Distribution(a) | Distribution(b)).contains(Distribution(a)));
        }
    }
}
