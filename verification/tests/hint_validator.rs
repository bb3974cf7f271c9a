use ogsql_parser::error::SourceLocation;
use ogsql_parser::hint_validator::{parse_hint_list, resolve_name_and_negation, validate_hints};

fn loc() -> SourceLocation {
    SourceLocation::default()
}

#[test]
fn test_parse_simple() {
    let h = parse_hint_list("tablescan(t1)");
    assert_eq!(h.len(), 1);
    assert_eq!(h[0].name, "tablescan");
    assert_eq!(h[0].args.as_deref(), Some("t1"));
    assert!(!h[0].negated);
}

#[test]
fn test_parse_multiple() {
    let h = parse_hint_list("tablescan(t1) leading(t1 t2)");
    assert_eq!(h.len(), 2);
}

#[test]
fn test_parse_negated() {
    let h = parse_hint_list("nohashjoin(t1 t2)");
    assert_eq!(h.len(), 1);
    assert!(h[0].negated);
    assert_eq!(h[0].name, "hashjoin");
}

#[test]
fn test_parse_queryblock() {
    let h = parse_hint_list("tablescan(@sel$1 t1)");
    assert_eq!(h[0].queryblock.as_deref(), Some("@sel$1"));
    assert_eq!(h[0].args.as_deref(), Some("t1"));
}

#[test]
fn test_validate_known_ok() {
    assert!(validate_hints("tablescan(t1)", loc()).is_empty());
}

#[test]
fn test_validate_unknown() {
    let w = validate_hints("invalid_hint(t1)", loc());
    assert_eq!(w.len(), 1);
    assert!(w[0].to_string().contains("Unknown hint"));
}

#[test]
fn test_validate_missing_parens() {
    let w = validate_hints("tablescan", loc());
    assert!(w
        .iter()
        .any(|e| e.to_string().contains("requires parenthesized")));
}

#[test]
fn test_validate_set_ok() {
    assert!(validate_hints("set(enable_hashjoin off)", loc()).is_empty());
}

#[test]
fn test_validate_set_missing_value() {
    let w = validate_hints("set(enable_hashjoin)", loc());
    assert!(w
        .iter()
        .any(|e| e.to_string().contains("parameter name and value")));
}

#[test]
fn test_validate_wlmrule_ok() {
    assert!(validate_hints("wlmrule(\"100,500,1\")", loc()).is_empty());
}

#[test]
fn test_validate_wlmrule_bad() {
    let w = validate_hints("wlmrule(100,500,1)", loc());
    assert!(w.iter().any(|e| e.to_string().contains("quoted argument")));
}

#[test]
fn test_validate_no_prefix_invalid() {
    let w = validate_hints("notablescan(t1)", loc());
    assert_eq!(w.len(), 0);

    let w2 = validate_hints("noleading(t1 t2)", loc());
    assert!(w2.iter().any(|e| e.to_string().contains("Unknown hint")));
}

#[test]
fn test_no_expand_is_known() {
    assert!(validate_hints("no_expand", loc()).is_empty());
}

#[test]
fn test_leading_unbalanced_parens() {
    let w = validate_hints("leading((t1 t2) t3)", loc());
    assert_eq!(w.len(), 0);
}

#[test]
fn test_leading_empty_args() {
    let w = validate_hints("leading()", loc());
    assert!(w
        .iter()
        .any(|e| e.to_string().contains("at least one table")));
}

fn messages(content: &str) -> Vec<String> {
    validate_hints(content, loc())
        .iter()
        .map(|e| match e {
            ogsql_parser::error::ParserError::Warning { message, .. } => message.clone(),
            _ => String::new(),
        })
        .collect()
}

#[test]
fn unknown_hint_gets_exactly_one_warning() {
    assert_eq!(
        messages("bogus_hint(a b c)"),
        vec!["Unknown hint 'bogus_hint' — not in GaussDB documented hint list".to_string()]
    );
}

#[test]
fn hint_warnings_follow_hint_order() {
    let a = messages("bogus1");
    let b = messages("set(x)");
    let both = messages("bogus1 set(x)");
    let mut joined = a.clone();
    joined.extend(b.clone());
    assert_eq!(both, joined);
    assert_eq!(b, vec!["Hint 'set' requires parameter name and value: set(param_name value)".to_string()]);
}

#[test]
fn plain_known_hint_is_accepted() {
    assert!(messages("no_expand").is_empty());
    assert!(messages("").is_empty());
}

#[test]
fn resolve_negation_forms() {
    assert_eq!(resolve_name_and_negation("NO HashJoin"), ("hashjoin".to_string(), true));
    assert_eq!(resolve_name_and_negation("no_expand"), ("no_expand".to_string(), false));
    assert_eq!(resolve_name_and_negation("notablescan"), ("tablescan".to_string(), true));
    assert_eq!(resolve_name_and_negation("Leading"), ("leading".to_string(), false));
}

#[test]
fn hints_of_joined_text_are_those_of_each_part() {
    let a = "nestloop(t1 t2) unknown_hint";
    let b = "no_merge(t3) hashjoin";
    let joined = validate_hints(&format!("{} {}", a, b), loc());
    let mut parts = validate_hints(a, loc());
    parts.extend(validate_hints(b, loc()));
    assert_eq!(format!("{:?}", joined), format!("{:?}", parts));
    assert!(!parts.is_empty());
}
