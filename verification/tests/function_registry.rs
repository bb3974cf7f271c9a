use ogsql_parser::ast::ObjectName;
use ogsql_parser::error::SourceLocation;
use ogsql_parser::function_registry::{
    lookup_builtin_meta, lookup_builtin_meta_qualified, lookup_function, lookup_function_qualified,
    resolve_builtin_meta, validate_function_call, CompatMode, Distribution, FuncCategory, FuncDomain, FuncMeta,
    FunctionRegistry,
};
use ogsql_parser::function_table::builtin_functions;

fn loc() -> SourceLocation {
    SourceLocation::default()
}

#[test]
fn test_compat_mode_bitops() {
    let combined = CompatMode::A_FORMAT() | CompatMode::B_FORMAT();
    assert!(combined.contains(CompatMode::A_FORMAT()));
    assert!(combined.contains(CompatMode::B_FORMAT()));
    assert!(!combined.contains(CompatMode::PG_FORMAT()));

    assert!(CompatMode::ALL().contains(CompatMode::A_FORMAT()));
    assert!(CompatMode::ALL().contains(CompatMode::B_FORMAT()));
    assert!(CompatMode::ALL().contains(CompatMode::PG_FORMAT()));
}

#[test]
fn test_compat_mode_single() {
    assert!(CompatMode::A_FORMAT().contains(CompatMode::A_FORMAT()));
    assert!(!CompatMode::A_FORMAT().contains(CompatMode::B_FORMAT()));
}

#[test]
fn test_lookup_aggregate_count() {
    let meta = lookup_function("count").expect("count should be registered");
    assert_eq!(meta.category, FuncCategory::Aggregate);
    assert_eq!(meta.domain, FuncDomain::Aggregate);
    assert_eq!(meta.min_args, 1);
    assert_eq!(meta.max_args, Some(1));
    assert!(meta.supports_distinct);
}

#[test]
fn test_lookup_aggregate_sum() {
    let meta = lookup_function("sum").expect("sum should be registered");
    assert_eq!(meta.category, FuncCategory::Aggregate);
    assert!(meta.supports_distinct);
}

#[test]
fn test_lookup_aggregate_avg() {
    let meta = lookup_function("avg").expect("avg should be registered");
    assert_eq!(meta.category, FuncCategory::Aggregate);
    assert!(meta.supports_distinct);
}

#[test]
fn test_lookup_aggregate_min_max() {
    let min_meta = lookup_function("min").expect("min should be registered");
    let max_meta = lookup_function("max").expect("max should be registered");
    assert_eq!(min_meta.category, FuncCategory::Aggregate);
    assert_eq!(max_meta.category, FuncCategory::Aggregate);
    assert!(min_meta.supports_distinct);
    assert!(max_meta.supports_distinct);
}

#[test]
fn test_lookup_aggregate_string_agg() {
    let meta = lookup_function("string_agg").expect("string_agg should be registered");
    assert_eq!(meta.category, FuncCategory::Aggregate);
    assert_eq!(meta.domain, FuncDomain::String);
    assert!(meta.supports_distinct);
}

#[test]
fn test_lookup_aggregate_listagg() {
    let meta = lookup_function("listagg").expect("listagg should be registered");
    assert_eq!(meta.category, FuncCategory::Aggregate);
    assert!(meta.supports_distinct);
}

#[test]
fn test_lookup_window_row_number() {
    let meta = lookup_function("row_number").expect("row_number should be registered");
    assert_eq!(meta.category, FuncCategory::Window);
    assert_eq!(meta.domain, FuncDomain::Window);
    assert_eq!(meta.min_args, 0);
    assert!(!meta.supports_distinct);
}

#[test]
fn test_lookup_window_rank() {
    let meta = lookup_function("rank").expect("rank should be registered");
    assert_eq!(meta.category, FuncCategory::Window);
}

#[test]
fn test_lookup_window_dense_rank() {
    let meta = lookup_function("dense_rank").expect("dense_rank should be registered");
    assert_eq!(meta.category, FuncCategory::Window);
}

#[test]
fn test_lookup_window_lag_lead() {
    let lag = lookup_function("lag").expect("lag should be registered");
    let lead = lookup_function("lead").expect("lead should be registered");
    assert_eq!(lag.category, FuncCategory::Window);
    assert_eq!(lead.category, FuncCategory::Window);
}

#[test]
fn test_lookup_window_nth_value() {
    let meta = lookup_function("nth_value").expect("nth_value should be registered");
    assert_eq!(meta.category, FuncCategory::Window);
}

#[test]
fn test_lookup_scalar_upper_lower() {
    let upper = lookup_function("upper").expect("upper should be registered");
    let lower = lookup_function("lower").expect("lower should be registered");
    assert_eq!(upper.category, FuncCategory::Scalar);
    assert_eq!(lower.category, FuncCategory::Scalar);
    assert_eq!(upper.domain, FuncDomain::String);
    assert_eq!(lower.domain, FuncDomain::String);
    assert!(!upper.supports_distinct);
    assert!(!lower.supports_distinct);
}

#[test]
fn test_lookup_scalar_substring() {
    // Both "substring" and "substr" should be registered
    let sub = lookup_function("substring").expect("substring should be registered");
    assert_eq!(sub.category, FuncCategory::Scalar);
    assert_eq!(sub.domain, FuncDomain::String);
}

#[test]
fn test_lookup_scalar_substr() {
    let meta = lookup_function("substr").expect("substr should be registered");
    assert_eq!(meta.category, FuncCategory::Scalar);
    assert_eq!(meta.domain, FuncDomain::String);
}

#[test]
fn test_lookup_scalar_replace() {
    let meta = lookup_function("replace").expect("replace should be registered");
    assert_eq!(meta.category, FuncCategory::Scalar);
    assert_eq!(meta.domain, FuncDomain::String);
    assert_eq!(meta.min_args, 2);
}

#[test]
fn test_lookup_scalar_trim_ltrim_rtrim() {
    let trim = lookup_function("trim").expect("trim should be registered");
    let ltrim = lookup_function("ltrim").expect("ltrim should be registered");
    let rtrim = lookup_function("rtrim").expect("rtrim should be registered");
    assert_eq!(trim.category, FuncCategory::Scalar);
    assert_eq!(ltrim.category, FuncCategory::Scalar);
    assert_eq!(rtrim.category, FuncCategory::Scalar);
}

#[test]
fn test_lookup_scalar_concat_concat_ws() {
    let concat = lookup_function("concat").expect("concat should be registered");
    let concat_ws = lookup_function("concat_ws").expect("concat_ws should be registered");
    assert_eq!(concat.category, FuncCategory::Scalar);
    assert_eq!(concat_ws.category, FuncCategory::Scalar);
    // concat is variadic
    assert!(concat.max_args.is_none());
    assert!(concat_ws.max_args.is_none());
    assert_eq!(concat.min_args, 2);
    assert_eq!(concat_ws.min_args, 2);
}

#[test]
fn test_lookup_scalar_length() {
    let meta = lookup_function("length").expect("length should be registered");
    assert_eq!(meta.category, FuncCategory::Scalar);
    assert_eq!(meta.domain, FuncDomain::String);
}

#[test]
fn test_lookup_scalar_abs() {
    let meta = lookup_function("abs").expect("abs should be registered");
    assert_eq!(meta.category, FuncCategory::Scalar);
    assert_eq!(meta.domain, FuncDomain::Math);
    assert_eq!(meta.min_args, 1);
    assert_eq!(meta.max_args, Some(1));
}

#[test]
fn test_lookup_scalar_round_ceil_floor() {
    let round = lookup_function("round").expect("round should be registered");
    let ceil = lookup_function("ceil").expect("ceil should be registered");
    let floor = lookup_function("floor").expect("floor should be registered");
    assert_eq!(round.category, FuncCategory::Scalar);
    assert_eq!(round.domain, FuncDomain::Math);
    assert_eq!(ceil.category, FuncCategory::Scalar);
    assert_eq!(ceil.domain, FuncDomain::Math);
    assert_eq!(floor.category, FuncCategory::Scalar);
    assert_eq!(floor.domain, FuncDomain::Math);
}

#[test]
fn test_lookup_scalar_mod() {
    let meta = lookup_function("mod").expect("mod should be registered");
    assert_eq!(meta.category, FuncCategory::Scalar);
    assert_eq!(meta.domain, FuncDomain::Math);
    assert_eq!(meta.min_args, 2);
}

#[test]
fn test_lookup_scalar_pi() {
    let meta = lookup_function("pi").expect("pi should be registered");
    assert_eq!(meta.category, FuncCategory::Scalar);
    assert_eq!(meta.domain, FuncDomain::Math);
    assert_eq!(meta.min_args, 0);
}

#[test]
fn test_lookup_scalar_now() {
    let meta = lookup_function("now").expect("now should be registered");
    assert_eq!(meta.category, FuncCategory::Scalar);
    assert_eq!(meta.domain, FuncDomain::DateTime);
    assert_eq!(meta.min_args, 0);
}

#[test]
fn test_lookup_scalar_date_trunc() {
    let meta = lookup_function("date_trunc").expect("date_trunc should be registered");
    assert_eq!(meta.category, FuncCategory::Scalar);
    assert_eq!(meta.domain, FuncDomain::DateTime);
    assert_eq!(meta.min_args, 2);
}

#[test]
fn test_lookup_scalar_to_char() {
    let meta = lookup_function("to_char").expect("to_char should be registered");
    assert_eq!(meta.category, FuncCategory::Scalar);
    assert_eq!(meta.domain, FuncDomain::TypeConversion);
}

#[test]
fn test_lookup_scalar_extract() {
    let meta = lookup_function("extract").expect("extract should be registered");
    assert_eq!(meta.category, FuncCategory::Scalar);
    assert_eq!(meta.domain, FuncDomain::DateTime);
}

#[test]
fn test_lookup_set_returning_generate_series() {
    let meta = lookup_function("generate_series").expect("generate_series should be registered");
    assert_eq!(meta.category, FuncCategory::SetReturning);
}

#[test]
fn test_lookup_set_returning_unnest() {
    let meta = lookup_function("unnest").expect("unnest should be registered");
    assert_eq!(meta.category, FuncCategory::SetReturning);
    assert_eq!(meta.domain, FuncDomain::Array);
}

#[test]
fn test_lookup_special_coalesce() {
    let meta = lookup_function("coalesce").expect("coalesce should be registered");
    assert_eq!(meta.category, FuncCategory::Special);
    assert!(meta.max_args.is_none());
    assert_eq!(meta.min_args, 2);
}

#[test]
fn test_lookup_special_nullif() {
    let meta = lookup_function("nullif").expect("nullif should be registered");
    assert_eq!(meta.category, FuncCategory::Special);
    assert_eq!(meta.min_args, 2);
    assert_eq!(meta.max_args, Some(2));
}

#[test]
fn test_lookup_special_greatest_least() {
    let greatest = lookup_function("greatest").expect("greatest should be registered");
    let least = lookup_function("least").expect("least should be registered");
    assert_eq!(greatest.category, FuncCategory::Special);
    assert_eq!(least.category, FuncCategory::Special);
    assert!(greatest.max_args.is_none());
    assert!(least.max_args.is_none());
}

#[test]
fn test_lookup_oracle_compat_nvl() {
    let meta = lookup_function("nvl").expect("nvl should be registered");
    assert_eq!(meta.category, FuncCategory::Special);
    assert_eq!(meta.domain, FuncDomain::OracleCompat);
}

#[test]
fn test_lookup_oracle_compat_nvl2() {
    let meta = lookup_function("nvl2").expect("nvl2 should be registered");
    assert_eq!(meta.category, FuncCategory::Special);
    assert_eq!(meta.domain, FuncDomain::OracleCompat);
}

#[test]
fn test_lookup_oracle_compat_add_months() {
    let meta = lookup_function("add_months").expect("add_months should be registered");
    assert_eq!(meta.category, FuncCategory::Scalar);
    assert_eq!(meta.domain, FuncDomain::OracleCompat);
}

#[test]
fn test_lookup_oracle_compat_last_day() {
    let meta = lookup_function("last_day").expect("last_day should be registered");
    assert_eq!(meta.category, FuncCategory::Scalar);
    assert_eq!(meta.domain, FuncDomain::OracleCompat);
}

#[test]
fn test_lookup_oracle_compat_decode() {
    let meta = lookup_function("decode").expect("decode should be registered");
    assert_eq!(meta.category, FuncCategory::Special);
    assert!(meta.max_args.is_none());
    assert_eq!(meta.min_args, 2);
}

#[test]
fn test_lookup_case_insensitive() {
    assert!(lookup_function("COUNT").is_some());
    assert!(lookup_function("Count").is_some());
    assert!(lookup_function("UPPER").is_some());
    assert!(lookup_function("Upper").is_some());
}

#[test]
fn test_lookup_unknown_returns_none() {
    assert!(lookup_function("my_custom_func").is_none());
    assert!(lookup_function("xyz123").is_none());
    assert!(lookup_function("").is_none());
}

#[test]
fn test_validate_coalesce_too_few() {
    let w = validate_function_call("coalesce", 1, false, false, false, loc());
    assert!(w.iter().any(|e| e.to_string().contains("at least 2")));
}

#[test]
fn test_validate_coalesce_ok() {
    assert!(validate_function_call("coalesce", 2, false, false, false, loc()).is_empty());
}

#[test]
fn test_validate_count_no_args() {
    let w = validate_function_call("count", 0, false, false, false, loc());
    assert!(w.iter().any(|e| e.to_string().contains("exactly 1")));
}

#[test]
fn test_validate_now_with_args() {
    let w = validate_function_call("now", 1, false, false, false, loc());
    assert!(w.iter().any(|e| e.to_string().contains("no arguments")));
}

#[test]
fn test_validate_distinct_on_non_aggregate() {
    let w = validate_function_call("upper", 1, true, false, false, loc());
    assert!(w.iter().any(|e| e.to_string().contains("DISTINCT")));
}

#[test]
fn test_validate_distinct_on_aggregate() {
    assert!(validate_function_call("count", 1, true, false, false, loc()).is_empty());
}

#[test]
fn test_validate_window_no_over() {
    let w = validate_function_call("row_number", 0, false, false, false, loc());
    assert!(w.iter().any(|e| e.to_string().contains("OVER clause")));
}

#[test]
fn test_validate_window_with_over() {
    assert!(validate_function_call("row_number", 0, false, true, false, loc()).is_empty());
}

#[test]
fn test_validate_lag_one_arg_ok() {
    assert!(validate_function_call("lag", 1, false, true, false, loc()).is_empty());
}

#[test]
fn test_validate_lag_two_args_ok() {
    assert!(validate_function_call("lag", 2, false, true, false, loc()).is_empty());
}

#[test]
fn test_validate_lag_three_args_ok() {
    assert!(validate_function_call("lag", 3, false, true, false, loc()).is_empty());
}

#[test]
fn test_validate_lead_one_arg_ok() {
    assert!(validate_function_call("lead", 1, false, true, false, loc()).is_empty());
}

#[test]
fn test_validate_lag_four_args_warns() {
    let w = validate_function_call("lag", 4, false, true, false, loc());
    assert!(w.iter().any(|e| e.to_string().contains("at most 3")));
}

#[test]
fn test_validate_unknown_no_warnings() {
    assert!(validate_function_call("my_func", 5, true, false, false, loc()).is_empty());
}

#[test]
fn test_validate_case_insensitive() {
    // UPPER with DISTINCT should warn even if name is lowercase
    let w = validate_function_call("UPPER", 1, true, false, false, loc());
    assert!(w.iter().any(|e| e.to_string().contains("DISTINCT")));
}

#[test]
fn test_validate_concat_many_args_ok() {
    // concat accepts 2+ args
    assert!(validate_function_call("concat", 5, false, false, false, loc()).is_empty());
}

#[test]
fn test_validate_greatest_many_args_ok() {
    assert!(validate_function_call("greatest", 10, false, false, false, loc()).is_empty());
}

#[test]
fn test_registry_core_lookup() {
    let reg = FunctionRegistry::new();
    let meta = reg.lookup("count").expect("count should be found via core");
    assert_eq!(meta.category, FuncCategory::Aggregate);
}

#[test]
fn test_registry_core_lookup_case_insensitive() {
    let reg = FunctionRegistry::new();
    assert!(reg.lookup("COUNT").is_some());
    assert!(reg.lookup("Upper").is_some());
}

#[test]
fn test_registry_unknown_returns_none() {
    let reg = FunctionRegistry::new();
    assert!(reg.lookup("nonexistent_func_xyz").is_none());
}

#[test]
fn test_registry_validate_core_func_via_registry() {
    let reg = FunctionRegistry::new();
    let w = reg.validate("upper", 1, true, false, false, loc());
    assert!(w.iter().any(|e| e.to_string().contains("DISTINCT")));
}

#[test]
fn test_registry_validate_unknown_no_warnings() {
    let reg = FunctionRegistry::new();
    assert!(reg.validate("nonexistent_xyz", 5, true, true, false, loc()).is_empty());
}

#[test]
fn test_qualified_lookup_dbe_lob_append() {
    let meta = lookup_function_qualified("dbe_lob.append").unwrap();
    assert_eq!(meta.name, "dbe_lob.append");
    assert_eq!(meta.domain, FuncDomain::DbeLob);
    assert_eq!(meta.category, FuncCategory::Scalar);
}

#[test]
fn test_qualified_lookup_dbms_lob_append() {
    let meta = lookup_function_qualified("dbms_lob.append").unwrap();
    assert_eq!(meta.domain, FuncDomain::DbmsLob);
}

#[test]
fn test_qualified_lookup_distinguishes_dbe_vs_dbms_lob() {
    let dbe = lookup_function_qualified("dbe_lob.append").unwrap();
    let dbms = lookup_function_qualified("dbms_lob.append").unwrap();
    assert_ne!(dbe.domain, dbms.domain);
    assert_eq!(dbe.domain, FuncDomain::DbeLob);
    assert_eq!(dbms.domain, FuncDomain::DbmsLob);
}

#[test]
fn test_qualified_lookup_dbe_output() {
    let meta = lookup_function_qualified("dbe_output.put_line").unwrap();
    assert_eq!(meta.domain, FuncDomain::DbeOutput);
}

#[test]
fn test_qualified_lookup_dbms_output() {
    let meta = lookup_function_qualified("dbms_output.put_line").unwrap();
    assert_eq!(meta.domain, FuncDomain::DbmsOutput);
}

#[test]
fn test_qualified_lookup_dbe_sql() {
    let meta = lookup_function_qualified("dbe_sql.execute").unwrap();
    assert_eq!(meta.domain, FuncDomain::DbeSql);
}

#[test]
fn test_qualified_lookup_dbms_sql() {
    let meta = lookup_function_qualified("dbms_sql.execute").unwrap();
    assert_eq!(meta.domain, FuncDomain::DbmsSql);
}

#[test]
fn test_qualified_lookup_dbe_file() {
    let meta = lookup_function_qualified("dbe_file.open").unwrap();
    assert_eq!(meta.domain, FuncDomain::DbeFile);
}

#[test]
fn test_qualified_lookup_utl_file() {
    let meta = lookup_function_qualified("utl_file.fopen").unwrap();
    assert_eq!(meta.domain, FuncDomain::UtlFile);
}

#[test]
fn test_qualified_lookup_dbe_scheduler() {
    let meta = lookup_function_qualified("dbe_scheduler.create_job").unwrap();
    assert_eq!(meta.domain, FuncDomain::DbeScheduler);
}

#[test]
fn test_qualified_lookup_dbms_scheduler() {
    let meta = lookup_function_qualified("dbms_scheduler.create_job").unwrap();
    assert_eq!(meta.domain, FuncDomain::DbmsScheduler);
}

#[test]
fn test_qualified_lookup_dbe_utility() {
    let meta = lookup_function_qualified("dbe_utility.get_time").unwrap();
    assert_eq!(meta.domain, FuncDomain::DbeUtility);
}

#[test]
fn test_qualified_lookup_dbe_stats() {
    let meta = lookup_function_qualified("dbe_stats.lock_table_stats").unwrap();
    assert_eq!(meta.domain, FuncDomain::DbeStats);
}

#[test]
fn test_qualified_lookup_dbe_session() {
    let meta = lookup_function_qualified("dbe_session.set_context").unwrap();
    assert_eq!(meta.domain, FuncDomain::DbeSession);
}

#[test]
fn test_qualified_lookup_dbms_utility() {
    let meta = lookup_function_qualified("dbms_utility.get_time").unwrap();
    assert_eq!(meta.domain, FuncDomain::DbmsUtility);
}

#[test]
fn test_qualified_lookup_pkg_service() {
    let meta = lookup_function_qualified("pkg_service.sql_cancel").unwrap();
    assert_eq!(meta.domain, FuncDomain::PkgService);
}

#[test]
fn test_lookup_xml_xmlelement() {
    let meta = lookup_function("xmlelement").unwrap();
    assert_eq!(meta.domain, FuncDomain::Xml);
    assert_eq!(meta.category, FuncCategory::Scalar);
}

#[test]
fn test_lookup_xml_xmlagg() {
    let meta = lookup_function("xmlagg").unwrap();
    assert_eq!(meta.domain, FuncDomain::Xml);
    assert_eq!(meta.category, FuncCategory::Aggregate);
    assert!(meta.supports_distinct);
}

#[test]
fn test_builtin_meta_xml() {
    let meta = lookup_builtin_meta("xmlelement").unwrap();
    assert_eq!(meta.category, "Scalar");
    assert_eq!(meta.domain, "Xml");
}

#[test]
fn test_builtin_meta_qualified_dbe_lob() {
    let meta = lookup_builtin_meta_qualified("dbe_lob.append").unwrap();
    assert_eq!(meta.category, "Scalar");
    assert_eq!(meta.domain, "DbeLob");
}

#[test]
fn test_qualified_lookup_fallback_to_last_segment() {
    let meta = lookup_function_qualified("pg_catalog.upper");
    assert!(meta.is_some());
    let m = meta.unwrap();
    assert_eq!(m.domain, FuncDomain::String);
}

#[test]
fn test_qualified_lookup_unknown_returns_none() {
    let meta = lookup_function_qualified("nonexistent_pkg.nonexistent_func");
    assert!(meta.is_none());
}

#[test]
fn test_qualified_lookup_no_dot_returns_exact() {
    let meta = lookup_function_qualified("upper");
    assert!(meta.is_some());
}

#[test]
fn test_functions_array_sorting_invariant() {
    let functions = builtin_functions();
    for i in 1..functions.len() {
        assert!(
            functions[i - 1].name < functions[i].name,
            "FUNCTIONS array not sorted: {:?} >= {:?} at index {}",
            functions[i - 1].name,
            functions[i].name,
            i
        );
    }
}

#[test]
fn test_lookup_exception_context_functions() {
    for name in &["pg_exception_context", "pg_exception_detail", "pg_exception_hint"] {
        let meta = lookup_function(name).unwrap_or_else(|| panic!("{} not found", name));
        assert_eq!(meta.domain, FuncDomain::ExceptionContext, "{} domain", name);
        assert_eq!(meta.category, FuncCategory::Scalar, "{} category", name);
        assert_eq!(meta.min_args, 0, "{} min_args", name);
        assert_eq!(meta.max_args, Some(0), "{} max_args", name);
    }
}

#[test]
fn test_builtin_meta_exception_context() {
    let meta = lookup_builtin_meta("pg_exception_detail").unwrap();
    assert_eq!(meta.category, "Scalar");
    assert_eq!(meta.domain, "ExceptionContext");

    let meta = lookup_builtin_meta("pg_exception_hint").unwrap();
    assert_eq!(meta.category, "Scalar");
    assert_eq!(meta.domain, "ExceptionContext");

    let meta = lookup_builtin_meta("pg_exception_context").unwrap();
    assert_eq!(meta.category, "Scalar");
    assert_eq!(meta.domain, "ExceptionContext");
}

#[test]
fn test_lookup_json_type_constructor() {
    let meta = lookup_function("json").unwrap();
    assert_eq!(meta.category, FuncCategory::TypeConstructor);
    assert_eq!(meta.domain, FuncDomain::Json);
    assert_eq!(meta.min_args, 0);
    assert_eq!(meta.max_args, Some(1));
}

#[test]
fn test_lookup_json_aggregate_functions() {
    let json_agg = lookup_function("json_agg").unwrap();
    assert_eq!(json_agg.category, FuncCategory::Aggregate);
    assert_eq!(json_agg.domain, FuncDomain::Json);
    assert!(json_agg.supports_distinct);

    let jsonb_agg = lookup_function("jsonb_agg").unwrap();
    assert_eq!(jsonb_agg.category, FuncCategory::Aggregate);
    assert_eq!(jsonb_agg.domain, FuncDomain::Json);
    assert!(jsonb_agg.supports_distinct);
}

#[test]
fn test_lookup_json_conversion_functions() {
    for name in &["to_json", "to_jsonb", "array_to_json", "row_to_json"] {
        let meta = lookup_function(name).unwrap_or_else(|| panic!("{} not found", name));
        assert_eq!(meta.category, FuncCategory::Scalar, "{} category", name);
        assert_eq!(meta.domain, FuncDomain::Json, "{} domain", name);
    }
}

#[test]
fn test_lookup_json_typeof_functions() {
    for name in &["json_typeof", "jsonb_typeof", "jsonb_pretty"] {
        let meta = lookup_function(name).unwrap_or_else(|| panic!("{} not found", name));
        assert_eq!(meta.category, FuncCategory::Scalar, "{} category", name);
        assert_eq!(meta.domain, FuncDomain::Json, "{} domain", name);
    }
}

#[test]
fn test_builtin_meta_json_type_constructor() {
    let meta = lookup_builtin_meta("json").unwrap();
    assert_eq!(meta.category, "TypeConstructor");
    assert_eq!(meta.domain, "Json");
}

#[test]
fn test_lookup_p1_system_functions() {
    let funcs = [
        ("col_description", 2, Some(3)),
        ("current_setting", 1, Some(2)),
        ("has_schema_privilege", 2, Some(4)),
        ("has_table_privilege", 2, Some(4)),
        ("pg_cancel_backend", 1, Some(1)),
        ("pg_database_size", 1, Some(1)),
        ("pg_get_userbyid", 1, Some(1)),
        ("pg_relation_size", 1, Some(2)),
        ("pg_table_is_visible", 1, Some(2)),
        ("pg_table_size", 1, Some(1)),
        ("pg_terminate_backend", 1, Some(1)),
        ("pg_total_relation_size", 1, Some(1)),
        ("pg_typeof", 1, Some(1)),
        ("set_config", 2, Some(3)),
    ];
    for (name, min, max) in &funcs {
        let meta = lookup_function(name).unwrap_or_else(|| panic!("{} not found", name));
        assert_eq!(meta.domain, FuncDomain::System, "{} domain", name);
        assert_eq!(meta.category, FuncCategory::Scalar, "{} category", name);
        assert_eq!(meta.min_args, *min, "{} min_args", name);
        assert_eq!(meta.max_args, *max, "{} max_args", name);
    }
}

#[test]
fn test_builtin_meta_p1_system_functions() {
    for name in &["pg_typeof", "current_setting", "set_config", "pg_database_size"] {
        let meta = lookup_builtin_meta(name).unwrap();
        assert_eq!(meta.category, "Scalar", "{} category", name);
        assert_eq!(meta.domain, "System", "{} domain", name);
    }
}

#[test]
fn test_distribution_bitops() {
    let combined = Distribution::OPENGAUSS() | Distribution::GAUSSDB();
    assert_eq!(combined, Distribution::BOTH());
    assert!(Distribution::BOTH().contains(Distribution::OPENGAUSS()));
    assert!(Distribution::BOTH().contains(Distribution::GAUSSDB()));
    assert!(!Distribution::OPENGAUSS().contains(Distribution::GAUSSDB()));
    assert!(!Distribution::GAUSSDB().contains(Distribution::OPENGAUSS()));
}

#[test]
fn test_distribution_commercial_only() {
    assert!(Distribution::GAUSSDB().is_commercial_only());
    assert!(!Distribution::BOTH().is_commercial_only());
    assert!(!Distribution::OPENGAUSS().is_commercial_only());
}

#[test]
fn test_distribution_default() {
    assert_eq!(Distribution::default(), Distribution::BOTH());
}

#[test]
fn test_all_functions_have_valid_distribution() {
    let functions = builtin_functions();
    for meta in &functions {
        assert!(
            meta.distribution.contains(Distribution::OPENGAUSS())
                || meta.distribution.contains(Distribution::GAUSSDB()),
            "Function {} has invalid (zero) distribution",
            meta.name
        );
    }
}

#[test]
fn test_commercial_only_functions_registered() {
    let functions = builtin_functions();
    let commercial: Vec<&FuncMeta> = functions.iter().filter(|m| m.distribution.is_commercial_only()).collect();
    assert!(commercial.len() >= 2, "Expected at least 2 commercial-only functions, found {}", commercial.len());
    assert!(commercial.iter().any(|m| m.name == "dbe_random.get_value"));
    assert!(commercial.iter().any(|m| m.name == "dbe_xmldom.makenode"));
}

#[test]
fn test_lookup_dbe_random_get_value() {
    let meta = lookup_function("dbe_random.get_value").expect("dbe_random.get_value should be registered");
    assert_eq!(meta.category, FuncCategory::Scalar);
    assert_eq!(meta.domain, FuncDomain::DbeRandom);
    assert_eq!(meta.min_args, 0); // both params have defaults
    assert_eq!(meta.max_args, Some(2));
    assert!(meta.distribution.is_commercial_only());
    assert!(!meta.distribution.contains(Distribution::OPENGAUSS()));
    assert!(meta.compat.contains(CompatMode::A_FORMAT()));
    assert!(meta.compat.contains(CompatMode::B_FORMAT()));
    assert!(meta.compat.contains(CompatMode::PG_FORMAT()));
}

#[test]
fn test_qualified_lookup_dbe_random_get_value() {
    let meta = lookup_function_qualified("dbe_random.get_value").unwrap();
    assert_eq!(meta.domain, FuncDomain::DbeRandom);
    assert_eq!(meta.distribution, Distribution::GAUSSDB());
}

#[test]
fn test_builtin_meta_dbe_random() {
    let meta = lookup_builtin_meta_qualified("dbe_random.get_value").unwrap();
    assert_eq!(meta.domain, "DbeRandom");
}

#[test]
fn test_lookup_dbe_xmldom_makenode() {
    let meta = lookup_function("dbe_xmldom.makenode").expect("dbe_xmldom.makenode should be registered");
    assert_eq!(meta.category, FuncCategory::Scalar);
    assert_eq!(meta.domain, FuncDomain::DbeXmlDom);
    assert_eq!(meta.min_args, 1);
    assert_eq!(meta.max_args, Some(1));
    assert!(meta.distribution.is_commercial_only());
    assert!(!meta.distribution.contains(Distribution::OPENGAUSS()));
    assert!(meta.compat.contains(CompatMode::A_FORMAT()));
    assert!(meta.compat.contains(CompatMode::PG_FORMAT()));
    assert!(!meta.compat.contains(CompatMode::B_FORMAT()));
}

#[test]
fn test_qualified_lookup_dbe_xmldom_makenode() {
    let meta = lookup_function_qualified("dbe_xmldom.makenode").unwrap();
    assert_eq!(meta.domain, FuncDomain::DbeXmlDom);
    assert_eq!(meta.distribution, Distribution::GAUSSDB());
}

#[test]
fn test_builtin_meta_dbe_xmldom() {
    let meta = lookup_builtin_meta_qualified("dbe_xmldom.makenode").unwrap();
    assert_eq!(meta.domain, "DbeXmlDom");
}

#[test]
fn test_phase2_dbe_output_completion() {
    for name in &["dbe_output.print_line", "dbe_output.set_buffer_size"] {
        let meta = lookup_function(name).unwrap_or_else(|| panic!("{} not found", name));
        assert_eq!(meta.domain, FuncDomain::DbeOutput);
    }
}

#[test]
fn test_phase2_dbe_stats_completion() {
    for name in &[
        "dbe_stats.lock_partition_stats",
        "dbe_stats.lock_column_stats",
        "dbe_stats.lock_schema_stats",
        "dbe_stats.unlock_partition_stats",
        "dbe_stats.unlock_column_stats",
        "dbe_stats.unlock_schema_stats",
        "dbe_stats.restore_table_stats",
        "dbe_stats.restore_partition_stats",
        "dbe_stats.restore_column_stats",
        "dbe_stats.restore_schema_stats",
        "dbe_stats.purge_stats",
        "dbe_stats.get_stats_history_retention",
        "dbe_stats.get_stats_history_availability",
    ] {
        let meta = lookup_function(name).unwrap_or_else(|| panic!("{} not found", name));
        assert_eq!(meta.domain, FuncDomain::DbeStats);
    }
}

#[test]
fn test_phase2_dbe_task_registered() {
    for name in &[
        "dbe_task.submit",
        "dbe_task.id_submit",
        "dbe_task.cancel",
        "dbe_task.run",
        "dbe_task.finish",
        "dbe_task.update",
        "dbe_task.change",
        "dbe_task.content",
        "dbe_task.next_time",
        "dbe_task.interval",
        "dbe_task.job_submit",
    ] {
        let meta = lookup_function(name).unwrap_or_else(|| panic!("{} not found", name));
        assert_eq!(meta.domain, FuncDomain::DbeTask);
    }
}

#[test]
fn test_builtin_meta_dbe_task() {
    let meta = lookup_builtin_meta_qualified("dbe_task.submit").unwrap();
    assert_eq!(meta.domain, "DbeTask");
}

#[test]
fn test_phase2_pkg_service_completion() {
    for name in &[
        "pkg_service.isubmit_on_nodes",
        "pkg_service.job_cancel",
        "pkg_service.job_finish",
        "pkg_service.job_submit",
        "pkg_service.job_update",
        "pkg_service.sql_clean_all_contexts",
        "pkg_service.sql_get_array_result",
        "pkg_service.sql_get_value",
        "pkg_service.sql_get_variable_result",
        "pkg_service.sql_is_context_active",
        "pkg_service.sql_next_row",
        "pkg_service.sql_register_context",
        "pkg_service.sql_run",
        "pkg_service.sql_set_result_type",
        "pkg_service.sql_set_sql",
        "pkg_service.sql_unregister_context",
        "pkg_service.submit_on_nodes",
    ] {
        let meta = lookup_function(name).unwrap_or_else(|| panic!("{} not found", name));
        assert_eq!(meta.domain, FuncDomain::PkgService);
    }
}

#[test]
fn test_phase2_dbe_lob_completion() {
    for name in &[
        "dbe_lob.bfileclose",
        "dbe_lob.bfileopen",
        "dbe_lob.bfilename",
        "dbe_lob.close",
        "dbe_lob.converttoblob",
        "dbe_lob.converttoclob",
        "dbe_lob.fileclose",
        "dbe_lob.fileopen",
        "dbe_lob.getchunksize",
        "dbe_lob.loadblobfrombfile",
        "dbe_lob.loadblobfromfile",
        "dbe_lob.loadclobfrombfile",
        "dbe_lob.loadclobfromfile",
        "dbe_lob.loadfrombfile",
        "dbe_lob.loadfromfile",
        "dbe_lob.lob_append",
        "dbe_lob.lob_converttoblob",
        "dbe_lob.lob_converttoclob",
        "dbe_lob.lob_copy",
        "dbe_lob.lob_erase",
        "dbe_lob.lob_get_length",
        "dbe_lob.lob_read",
        "dbe_lob.lob_strip",
        "dbe_lob.lob_substr",
        "dbe_lob.lob_write",
        "dbe_lob.lob_write_append",
        "dbe_lob.match",
        "dbe_lob.open",
        "dbe_lob.strip",
        "dbe_lob.write_append",
    ] {
        let meta = lookup_function(name).unwrap_or_else(|| panic!("{} not found", name));
        assert_eq!(meta.domain, FuncDomain::DbeLob);
    }
}

#[test]
fn test_phase2_dbe_lob_lob_converttoblob_signature() {
    let meta = lookup_function("dbe_lob.lob_converttoblob").unwrap();
    assert_eq!(meta.min_args, 5);
    assert_eq!(meta.max_args, Some(5));
}

#[test]
fn test_phase2_dbe_lob_converttoblob_signature() {
    let meta = lookup_function("dbe_lob.converttoblob").unwrap();
    assert_eq!(meta.min_args, 2);
    assert_eq!(meta.max_args, Some(5));
}

#[test]
fn test_phase3_dbe_xmldom_registered() {
    for name in &[
        "dbe_xmldom.appendchild",
        "dbe_xmldom.createelement",
        "dbe_xmldom.createtextnode",
        "dbe_xmldom.freedocument",
        "dbe_xmldom.freeelement",
        "dbe_xmldom.freenode",
        "dbe_xmldom.freenodelist",
        "dbe_xmldom.getattribute",
        "dbe_xmldom.getattributes",
        "dbe_xmldom.getchildnodes",
        "dbe_xmldom.getchildrenbytagname",
        "dbe_xmldom.getdocumentelement",
        "dbe_xmldom.getfirstchild",
        "dbe_xmldom.getlastchild",
        "dbe_xmldom.getlength",
        "dbe_xmldom.getlocalname",
        "dbe_xmldom.getnameditem",
        "dbe_xmldom.getnextsibling",
        "dbe_xmldom.getnodename",
        "dbe_xmldom.getnodetype",
        "dbe_xmldom.getnodevalue",
        "dbe_xmldom.getparentnode",
        "dbe_xmldom.gettagname",
        "dbe_xmldom.haschildnodes",
        "dbe_xmldom.importnode",
        "dbe_xmldom.isnull",
        "dbe_xmldom.item",
        "dbe_xmldom.makeelement",
        "dbe_xmldom.makenode",
        "dbe_xmldom.newdomdocument",
        "dbe_xmldom.setattribute",
        "dbe_xmldom.setcharset",
        "dbe_xmldom.setdoctype",
        "dbe_xmldom.setnodevalue",
        "dbe_xmldom.writetobuffer",
        "dbe_xmldom.writetoclob",
    ] {
        let meta = lookup_function(name).unwrap_or_else(|| panic!("{} not found", name));
        assert_eq!(meta.domain, FuncDomain::DbeXmlDom);
        assert!(meta.distribution.is_commercial_only());
        assert!(!meta.compat.contains(CompatMode::B_FORMAT()));
    }
}

#[test]
fn test_phase3_dbe_xmlparser_registered() {
    for name in &[
        "dbe_xmlparser.freeparser",
        "dbe_xmlparser.getdocument",
        "dbe_xmlparser.getvalidationmode",
        "dbe_xmlparser.newparser",
        "dbe_xmlparser.parsebuffer",
        "dbe_xmlparser.parseclob",
        "dbe_xmlparser.setvalidationmode",
    ] {
        let meta = lookup_function(name).unwrap_or_else(|| panic!("{} not found", name));
        assert_eq!(meta.domain, FuncDomain::DbeXmlParser);
        assert!(meta.distribution.is_commercial_only());
        assert!(!meta.compat.contains(CompatMode::B_FORMAT()));
    }
}

#[test]
fn test_builtin_meta_dbe_xmlparser() {
    let meta = lookup_builtin_meta_qualified("dbe_xmlparser.parsebuffer").unwrap();
    assert_eq!(meta.domain, "DbeXmlParser");
}

#[test]
fn test_phase3_xmldom_newdomdocument_signature() {
    let meta = lookup_function("dbe_xmldom.newdomdocument").unwrap();
    assert_eq!(meta.min_args, 0);
    assert_eq!(meta.max_args, Some(1));
}

#[test]
fn test_phase4_dbe_application_info_registered() {
    for name in &[
        "dbe_application_info.read_client_info",
        "dbe_application_info.read_module",
        "dbe_application_info.set_action",
        "dbe_application_info.set_client_info",
        "dbe_application_info.set_module",
    ] {
        let meta = lookup_function(name).unwrap_or_else(|| panic!("{} not found", name));
        assert_eq!(meta.domain, FuncDomain::DbeApplicationInfo);
    }
}

#[test]
fn test_phase4_dbe_match_registered() {
    let meta = lookup_function("dbe_match.edit_distance_similarity").unwrap();
    assert_eq!(meta.domain, FuncDomain::DbeMatch);
    assert_eq!(meta.min_args, 2);
    assert_eq!(meta.max_args, Some(2));
}

#[test]
fn test_phase4_dbe_raw_registered() {
    for name in &[
        "dbe_raw.bit_and",
        "dbe_raw.bit_complement",
        "dbe_raw.bit_or",
        "dbe_raw.bit_xor",
        "dbe_raw.cast_from_binary_double_to_raw",
        "dbe_raw.cast_from_binary_float_to_raw",
        "dbe_raw.cast_from_binary_integer_to_raw",
        "dbe_raw.cast_from_number_to_raw",
        "dbe_raw.cast_from_raw_to_binary_double",
        "dbe_raw.cast_from_raw_to_binary_float",
        "dbe_raw.cast_from_raw_to_binary_integer",
        "dbe_raw.cast_from_raw_to_nvarchar2",
        "dbe_raw.cast_from_raw_to_number",
        "dbe_raw.cast_from_varchar2_to_raw",
        "dbe_raw.cast_to_varchar2",
        "dbe_raw.compare",
        "dbe_raw.concat",
        "dbe_raw.convert",
        "dbe_raw.copies",
        "dbe_raw.get_length",
        "dbe_raw.overlay",
        "dbe_raw.reverse",
        "dbe_raw.substr",
        "dbe_raw.translate",
        "dbe_raw.transliterate",
        "dbe_raw.xrange",
    ] {
        let meta = lookup_function(name).unwrap_or_else(|| panic!("{} not found", name));
        assert_eq!(meta.domain, FuncDomain::DbeRaw);
    }
}

#[test]
fn test_phase4_dbe_scheduler_completion() {
    for name in &[
        "dbe_scheduler.create_credential",
        "dbe_scheduler.create_job_class",
        "dbe_scheduler.create_program",
        "dbe_scheduler.create_schedule",
        "dbe_scheduler.define_program_argument",
        "dbe_scheduler.disable",
        "dbe_scheduler.drop_credential",
        "dbe_scheduler.drop_job_class",
        "dbe_scheduler.drop_program",
        "dbe_scheduler.drop_schedule",
        "dbe_scheduler.enable",
        "dbe_scheduler.eval_calendar_string",
        "dbe_scheduler.generate_job_name",
        "dbe_scheduler.grant_user_authorization",
        "dbe_scheduler.revoke_user_authorization",
        "dbe_scheduler.run_backend_job",
        "dbe_scheduler.run_foreground_job",
        "dbe_scheduler.set_attribute",
        "dbe_scheduler.set_job_argument_value",
        "dbe_scheduler.stop_job",
    ] {
        let meta = lookup_function(name).unwrap_or_else(|| panic!("{} not found", name));
        assert_eq!(meta.domain, FuncDomain::DbeScheduler);
    }
}

#[test]
fn test_phase4_dbe_sql_util_registered() {
    for name in &[
        "dbe_sql_util.create_abort_sql_patch",
        "dbe_sql_util.create_hint_sql_patch",
        "dbe_sql_util.disable_sql_patch",
        "dbe_sql_util.drop_sql_patch",
        "dbe_sql_util.enable_sql_patch",
        "dbe_sql_util.show_sql_patch",
    ] {
        let meta = lookup_function(name).unwrap_or_else(|| panic!("{} not found", name));
        assert_eq!(meta.domain, FuncDomain::DbeSqlUtil);
    }
}

#[test]
fn test_phase4_domain_string_mappings() {
    assert_eq!(
        lookup_builtin_meta_qualified("dbe_application_info.set_action").unwrap().domain,
        "DbeApplicationInfo"
    );
    assert_eq!(lookup_builtin_meta_qualified("dbe_match.edit_distance_similarity").unwrap().domain, "DbeMatch");
    assert_eq!(lookup_builtin_meta_qualified("dbe_raw.substr").unwrap().domain, "DbeRaw");
    assert_eq!(lookup_builtin_meta_qualified("dbe_sql_util.show_sql_patch").unwrap().domain, "DbeSqlUtil");
}

#[test]
fn test_resolve_builtin_meta_plain_function() {
    let name: ObjectName = vec!["abs".into()];
    let meta = resolve_builtin_meta(&name).unwrap();
    assert_eq!(meta.domain, "Math");
}

#[test]
fn test_resolve_builtin_meta_dotted_package_function() {
    let name: ObjectName = vec!["dbe_output".into(), "put_line".into()];
    let meta = resolve_builtin_meta(&name).unwrap();
    assert_eq!(meta.domain, "DbeOutput");
}

#[test]
fn test_resolve_builtin_meta_unknown_returns_none() {
    let name: ObjectName = vec!["definitely_not_a_real_func_xyz".into()];
    assert!(resolve_builtin_meta(&name).is_none());
}

#[test]
fn test_resolve_builtin_meta_schema_qualified_fallback() {
    let name: ObjectName = vec!["pg_catalog".into(), "abs".into()];
    let meta = resolve_builtin_meta(&name).unwrap();
    assert_eq!(meta.domain, "Math");
}

#[test]
fn test_issue_258_pack_log_log_not_builtin() {
    assert!(lookup_function_qualified("pack_log.log").is_none());
    let name: ObjectName = vec!["pack_log".into(), "log".into()];
    assert!(resolve_builtin_meta(&name).is_none());
}

#[test]
fn test_issue_258_bigfund_pack_log_count_not_builtin() {
    assert!(lookup_function_qualified("bigfund.pack_log.count").is_none());
    let name: ObjectName = vec!["bigfund".into(), "pack_log".into(), "count".into()];
    assert!(resolve_builtin_meta(&name).is_none());
}

#[test]
fn test_issue_258_pckg_ctp_lg_public_log_not_builtin() {
    assert!(lookup_function_qualified("pckg_ctp_lg_public.log").is_none());
}

#[test]
fn test_issue_258_my_utils_substr_not_builtin() {
    assert!(lookup_function_qualified("my_utils.substr").is_none());
    let name: ObjectName = vec!["my_utils".into(), "substr".into()];
    assert!(resolve_builtin_meta(&name).is_none());
}

#[test]
fn test_issue_258_user_schema_upper_not_builtin() {
    assert!(lookup_function_qualified("some_schema.upper").is_none());
    assert!(lookup_function_qualified("myschema.abs").is_none());
}

#[test]
fn test_issue_258_system_prefix_still_resolves() {
    let meta = lookup_function_qualified("pg_catalog.upper");
    assert!(meta.is_some());
    assert_eq!(meta.unwrap().domain, FuncDomain::String);

    let meta = lookup_function_qualified("sys.abs");
    assert!(meta.is_some());
    assert_eq!(meta.unwrap().domain, FuncDomain::Math);
}

#[test]
fn test_issue_258_oracle_compat_package_still_resolves() {
    let meta = lookup_function_qualified("dbe_output.put_line");
    assert!(meta.is_some());
    assert_eq!(meta.unwrap().domain, FuncDomain::DbeOutput);

    let meta = lookup_function_qualified("dbms_output.put_line");
    assert!(meta.is_some());
}

#[test]
fn every_builtin_is_found_by_its_own_name() {
    let functions = builtin_functions();
    for meta in &functions {
        let found = lookup_function(meta.name).expect("each entry is found by its name");
        assert_eq!(found.name, meta.name);
        assert_eq!(found.min_args, meta.min_args);
        assert_eq!(found.max_args, meta.max_args);
    }
    for w in functions.windows(2) {
        assert!(w[0].name < w[1].name);
    }
}
