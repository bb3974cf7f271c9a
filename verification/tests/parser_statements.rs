use ogsql_parser::ast::{
    AlterColumnAction, AlterTableAction, ColumnConstraint, DataType, Expr, InsertSource, Literal, OnConflictAction,
    OnConflictTarget, PartitionValues, TableConstraint,
};
use ogsql_parser::error::{ParserError, SourceLocation};
use ogsql_parser::parser::expr::format_data_type;
use ogsql_parser::parser::Parser;
use ogsql_parser::token::{Keyword, Token, TokenWithSpan};

fn parser(ts: Vec<Token>) -> Parser {
    let spans: Vec<TokenWithSpan> = ts
        .into_iter()
        .enumerate()
        .map(|(i, token)| TokenWithSpan { token, location: SourceLocation { line: 1, column: i + 1, offset: i } })
        .collect();
    Parser::new(spans)
}

fn id(s: &str) -> Token {
    Token::Ident(s.to_string())
}

fn kw(k: Keyword) -> Token {
    Token::Keyword(k)
}

fn num(n: i64) -> Token {
    Token::Integer(n)
}

fn lit(n: i64) -> Expr {
    Expr::Literal(Literal::Integer(n))
}

fn show<T: std::fmt::Debug>(x: &T) -> String {
    format!("{:?}", x)
}

#[test]
fn precedence_and_left_grouping_of_binary_operators() {
    let mut p = parser(vec![num(1), Token::Minus, num(2), Token::Star, num(3), Token::Minus, num(4)]);
    let e = p.parse_expr().unwrap();
    let b = |l: Expr, o: &str, r: Expr| Expr::BinaryOp { left: Box::new(l), op: o.to_string(), right: Box::new(r) };
    assert_eq!(show(&e), show(&b(b(lit(1), "-", b(lit(2), "*", lit(3))), "-", lit(4))));
    assert_eq!(p.pos(), 7);
}

#[test]
fn parenthesized_list_is_a_row_and_single_is_grouping() {
    let mut p = parser(vec![Token::LParen, num(1), Token::Comma, num(2), Token::RParen]);
    assert_eq!(show(&p.parse_expr().unwrap()), show(&Expr::RowConstructor(vec![lit(1), lit(2)])));
    assert_eq!(p.pos(), 5);
    let mut p = parser(vec![Token::LParen, num(1), Token::RParen]);
    assert_eq!(show(&p.parse_expr().unwrap()), show(&Expr::Parenthesized(Box::new(lit(1)))));
    assert_eq!(p.pos(), 3);
}

#[test]
fn create_table_readme_example_columns() {
    let mut p = parser(vec![
        kw(Keyword::TABLE),
        id("t"),
        Token::LParen,
        id("id"),
        kw(Keyword::INTEGER),
        kw(Keyword::PRIMARY),
        kw(Keyword::KEY),
        Token::Comma,
        kw(Keyword::NAME_P),
        kw(Keyword::VARCHAR),
        Token::LParen,
        num(100),
        Token::RParen,
        kw(Keyword::NOT),
        kw(Keyword::NULL_P),
        Token::RParen,
    ]);
    let s = p.parse_create_table(true, false).unwrap();
    assert!(s.temporary && !s.unlogged && !s.if_not_exists);
    assert_eq!(s.name, vec!["t".to_string()]);
    assert!(s.constraints.is_empty());
    assert_eq!(s.columns.len(), 2);
    assert_eq!(s.columns[0].name, "id");
    assert_eq!(show(&s.columns[0].data_type), show(&DataType::Integer(None)));
    assert_eq!(show(&s.columns[0].constraints), show(&vec![ColumnConstraint::PrimaryKey]));
    assert_eq!(s.columns[1].name, "name");
    assert_eq!(show(&s.columns[1].data_type), show(&DataType::Varchar(Some(100))));
    assert_eq!(show(&s.columns[1].constraints), show(&vec![ColumnConstraint::NotNull]));
    assert_eq!(p.pos(), 16);
}

#[test]
fn column_definition_with_not_null_and_default() {
    let mut p = parser(vec![
        id("c"),
        kw(Keyword::VARCHAR),
        Token::LParen,
        num(10),
        Token::RParen,
        kw(Keyword::NOT),
        kw(Keyword::NULL_P),
        kw(Keyword::DEFAULT),
        Token::StringLiteral("x".to_string()),
        Token::Comma,
        id("d"),
        kw(Keyword::INT_P),
    ]);
    let c = p.parse_column_def().unwrap();
    assert_eq!(c.name, "c");
    assert_eq!(show(&c.data_type), show(&DataType::Varchar(Some(10))));
    assert_eq!(
        show(&c.constraints),
        show(&vec![ColumnConstraint::NotNull, ColumnConstraint::Default(Expr::Literal(Literal::String("x".to_string())))])
    );
    assert!(c.charset.is_none() && c.collate.is_none() && c.generated.is_none());
    assert_eq!(show(p.peek()), show(&Token::Comma));
}

#[test]
fn alter_column_set_not_null_and_add_primary_key() {
    let mut p = parser(vec![kw(Keyword::ALTER), kw(Keyword::COLUMN), id("c"), kw(Keyword::SET), kw(Keyword::NOT), kw(Keyword::NULL_P)]);
    let a = p.parse_alter_table_action().unwrap();
    assert_eq!(
        show(&a),
        show(&AlterTableAction::AlterColumn { name: "c".to_string(), action: AlterColumnAction::SetNotNull })
    );
    let mut p = parser(vec![
        kw(Keyword::ADD_P),
        kw(Keyword::CONSTRAINT),
        id("k"),
        kw(Keyword::PRIMARY),
        kw(Keyword::KEY),
        Token::LParen,
        id("a"),
        Token::RParen,
    ]);
    let a = p.parse_alter_table_action().unwrap();
    assert_eq!(
        show(&a),
        show(&AlterTableAction::AddConstraint {
            name: Some("k".to_string()),
            constraint: TableConstraint::PrimaryKey(vec!["a".to_string()]),
        })
    );
    assert_eq!(p.pos(), 8);
}

#[test]
fn alter_column_actions_each_form() {
    let mut p = parser(vec![kw(Keyword::DROP), kw(Keyword::DEFAULT)]);
    assert_eq!(show(&p.parse_alter_column_action().unwrap()), show(&AlterColumnAction::DropDefault));
    let mut p = parser(vec![kw(Keyword::DROP), kw(Keyword::NOT), kw(Keyword::NULL_P)]);
    assert_eq!(show(&p.parse_alter_column_action().unwrap()), show(&AlterColumnAction::DropNotNull));
    let mut p = parser(vec![kw(Keyword::SET), kw(Keyword::DEFAULT), num(5)]);
    assert_eq!(show(&p.parse_alter_column_action().unwrap()), show(&AlterColumnAction::SetDefault(lit(5))));
    let mut p = parser(vec![kw(Keyword::TYPE_P), kw(Keyword::BIGINT)]);
    assert_eq!(show(&p.parse_alter_column_action().unwrap()), show(&AlterColumnAction::SetDataType(DataType::BigInt(None))));
    let mut p = parser(vec![kw(Keyword::SET), id("x")]);
    match p.parse_alter_column_action().unwrap_err() {
        ParserError::UnexpectedToken { expected, got, .. } => {
            assert_eq!(expected, "ALTER COLUMN SET option");
            assert_eq!(got, "Ident(\"x\")");
        },
        other => panic!("unexpected {:?}", other),
    }
}

#[test]
fn alter_table_several_named_actions() {
    let mut p = parser(vec![
        kw(Keyword::TABLE),
        id("t"),
        kw(Keyword::RENAME),
        kw(Keyword::COLUMN),
        id("a"),
        kw(Keyword::TO),
        id("b"),
        Token::Comma,
        kw(Keyword::DROP),
        kw(Keyword::COLUMN),
        id("c"),
    ]);
    let s = p.parse_alter_table().unwrap();
    assert_eq!(s.actions.len(), 2);
    assert_eq!(
        show(&s.actions[0]),
        show(&AlterTableAction::RenameColumn { old: "a".to_string(), new: "b".to_string() })
    );
    assert_eq!(p.pos(), 11);
}

#[test]
fn create_sequence_options() {
    let mut p = parser(vec![
        kw(Keyword::SEQUENCE),
        id("s"),
        kw(Keyword::START),
        kw(Keyword::WITH),
        num(10),
        kw(Keyword::INCREMENT),
        kw(Keyword::BY),
        num(2),
        kw(Keyword::CYCLE),
        kw(Keyword::NO),
        kw(Keyword::MINVALUE),
    ]);
    let s = p.parse_create_sequence().unwrap();
    assert_eq!(show(&s.start), show(&Some(lit(10))));
    assert_eq!(show(&s.increment), show(&Some(lit(2))));
    assert!(s.cycle);
    assert!(s.min_value.is_none() && s.max_value.is_none() && s.cache.is_none() && s.owned_by.is_none());
    assert_eq!(p.pos(), 11);
}

#[test]
fn create_index_keys() {
    let mut p = parser(vec![
        kw(Keyword::INDEX),
        id("i"),
        kw(Keyword::ON),
        id("t"),
        Token::LParen,
        id("a"),
        kw(Keyword::DESC),
        Token::Comma,
        id("b"),
        Token::RParen,
    ]);
    let s = p.parse_create_index(false).unwrap();
    assert_eq!(s.name, Some(vec!["i".to_string()]));
    assert_eq!(s.table, vec!["t".to_string()]);
    assert_eq!(s.columns.len(), 2);
    assert_eq!(s.columns[0].name, Some("a".to_string()));
    assert_eq!(s.columns[0].asc, Some(false));
    assert_eq!(s.columns[1].name, Some("b".to_string()));
    assert_eq!(s.columns[1].asc, None);
    assert_eq!(p.pos(), 10);
}

#[test]
fn table_constraint_forms() {
    let mut p = parser(vec![kw(Keyword::UNIQUE), Token::LParen, id("a"), Token::Comma, id("b"), Token::RParen]);
    assert_eq!(show(&p.parse_table_constraint().unwrap()), show(&TableConstraint::Unique(vec!["a".to_string(), "b".to_string()])));
    let mut p = parser(vec![kw(Keyword::CHECK), Token::LParen, num(1), Token::RParen]);
    assert_eq!(show(&p.parse_table_constraint().unwrap()), show(&TableConstraint::Check(lit(1))));
    let mut p = parser(vec![kw(Keyword::CONSTRAINT), id("k"), id("x")]);
    match p.parse_table_constraint().unwrap_err() {
        ParserError::UnexpectedToken { expected, .. } => assert_eq!(expected, "table constraint"),
        other => panic!("unexpected {:?}", other),
    }
}

#[test]
fn partition_values_forms() {
    let mut p = parser(vec![kw(Keyword::VALUES), kw(Keyword::LESS), kw(Keyword::THAN), Token::LParen, num(10), Token::RParen]);
    assert_eq!(show(&p.parse_partition_values().unwrap()), show(&PartitionValues::LessThan(vec![lit(10)])));
    let mut p = parser(vec![kw(Keyword::VALUES), Token::LParen, num(1), Token::Comma, num(2), Token::RParen]);
    assert_eq!(show(&p.parse_partition_values().unwrap()), show(&PartitionValues::InValues(vec![lit(1), lit(2)])));
    assert_eq!(p.pos(), 6);
}

#[test]
fn data_type_debug_fallback_rendering() {
    let t = DataType::Array(Box::new(DataType::Time(Some(3), None)));
    assert_eq!(format_data_type(&t), "array(time(some(3), none))");
    let t = DataType::Bit(Some(8));
    assert_eq!(format_data_type(&t), "bit(some(8))");
}

#[test]
fn error_reports_token_debug_text() {
    let mut p = parser(vec![kw(Keyword::TRUE_P)]);
    match p.parse_identifier().unwrap_err() {
        ParserError::UnexpectedToken { got, .. } => assert_eq!(got, "Keyword(TRUE_P)"),
        other => panic!("unexpected {:?}", other),
    }
    let mut p = parser(vec![num(-7)]);
    match p.parse_identifier().unwrap_err() {
        ParserError::UnexpectedToken { got, .. } => assert_eq!(got, "Integer(-7)"),
        other => panic!("unexpected {:?}", other),
    }
}

#[test]
fn alter_table_column_and_constraint_actions() {
    let mut p = parser(vec![
        kw(Keyword::TABLE),
        id("t"),
        kw(Keyword::ALTER),
        id("c"),
        kw(Keyword::DROP),
        kw(Keyword::DEFAULT),
        Token::Comma,
        kw(Keyword::ADD_P),
        kw(Keyword::UNIQUE),
        Token::LParen,
        id("a"),
        Token::RParen,
    ]);
    let s = p.parse_alter_table().unwrap();
    assert_eq!(
        show(&s.actions),
        show(&vec![
            AlterTableAction::AlterColumn { name: "c".to_string(), action: AlterColumnAction::DropDefault },
            AlterTableAction::AddConstraint { name: None, constraint: TableConstraint::Unique(vec!["a".to_string()]) },
        ])
    );
    assert_eq!(p.pos(), 12);
}

#[test]
fn postfix_between_like_and_subscript_operands() {
    let mut p = parser(vec![id("x"), kw(Keyword::BETWEEN), num(1), kw(Keyword::AND), num(2), Token::Plus, num(3)]);
    let e = p.parse_expr().unwrap();
    match e {
        Expr::Between { low, high, negated, .. } => {
            assert!(!negated);
            assert_eq!(show(&*low), show(&lit(1)));
            assert_eq!(
                show(&*high),
                show(&Expr::BinaryOp { left: Box::new(lit(2)), op: "+".to_string(), right: Box::new(lit(3)) })
            );
        },
        other => panic!("unexpected {:?}", other),
    }
    let mut p = parser(vec![id("x"), kw(Keyword::NOT), kw(Keyword::LIKE), Token::StringLiteral("a%".to_string())]);
    match p.parse_expr().unwrap() {
        Expr::BinaryOp { op, right, .. } => {
            assert_eq!(op, "NOT LIKE");
            assert_eq!(show(&*right), show(&Expr::Literal(Literal::String("a%".to_string()))));
        },
        other => panic!("unexpected {:?}", other),
    }
    let mut p = parser(vec![id("a"), Token::LBracket, num(1), Token::RBracket]);
    match p.parse_expr().unwrap() {
        Expr::Subscript { index, .. } => assert_eq!(show(&*index), show(&lit(1))),
        other => panic!("unexpected {:?}", other),
    }
    assert_eq!(p.pos(), 4);
}

fn bin(l: Expr, o: &str, r: Expr) -> Expr {
    Expr::BinaryOp { left: Box::new(l), op: o.to_string(), right: Box::new(r) }
}

#[test]
fn function_call_with_expression_arguments() {
    let mut p = parser(vec![id("f"), Token::LParen, num(1), Token::Comma, num(2), Token::Plus, num(3), Token::RParen]);
    let e = p.parse_expr().unwrap();
    let expected = Expr::FunctionCall {
        name: vec!["f".to_string()],
        args: vec![lit(1), bin(lit(2), "+", lit(3))],
        distinct: false,
        over: None,
        filter: None,
        within_group: vec![],
    };
    assert_eq!(show(&e), show(&expected));
    assert_eq!(p.pos(), 8);
}

#[test]
fn cast_and_case_operands() {
    let mut p = parser(vec![
        kw(Keyword::CAST),
        Token::LParen,
        num(1),
        Token::Plus,
        num(2),
        kw(Keyword::AS),
        kw(Keyword::BIGINT),
        Token::RParen,
    ]);
    match p.parse_expr().unwrap() {
        Expr::TypeCast { expr, data_type, default, format } => {
            assert_eq!(show(&*expr), show(&bin(lit(1), "+", lit(2))));
            assert_eq!(show(&data_type), show(&DataType::BigInt(None)));
            assert!(default.is_none() && format.is_none());
        },
        other => panic!("unexpected {:?}", other),
    }
    assert_eq!(p.pos(), 8);
    let mut p = parser(vec![
        kw(Keyword::CASE),
        id("x"),
        kw(Keyword::WHEN),
        num(1),
        kw(Keyword::THEN),
        num(2),
        kw(Keyword::ELSE),
        num(3),
        kw(Keyword::END_P),
    ]);
    match p.parse_expr().unwrap() {
        Expr::Case { operand, whens, else_expr } => {
            assert_eq!(show(&operand), show(&Some(Box::new(Expr::ColumnRef(vec!["x".to_string()])))));
            assert_eq!(whens.len(), 1);
            assert_eq!(show(&whens[0].condition), show(&lit(1)));
            assert_eq!(show(&whens[0].result), show(&lit(2)));
            assert_eq!(show(&else_expr), show(&Some(Box::new(lit(3)))));
        },
        other => panic!("unexpected {:?}", other),
    }
    assert_eq!(p.pos(), 9);
}

#[test]
fn insert_values_and_on_conflict() {
    let mut p = parser(vec![
        kw(Keyword::INTO),
        id("t"),
        Token::LParen,
        id("a"),
        Token::Comma,
        id("b"),
        Token::RParen,
        kw(Keyword::VALUES),
        Token::LParen,
        num(1),
        Token::Comma,
        num(2),
        Token::RParen,
        Token::Comma,
        Token::LParen,
        num(3),
        Token::Comma,
        num(4),
        Token::RParen,
        kw(Keyword::ON),
        kw(Keyword::CONFLICT),
        Token::LParen,
        id("a"),
        Token::RParen,
        kw(Keyword::DO),
        kw(Keyword::UPDATE),
        kw(Keyword::SET),
        id("b"),
        Token::Eq,
        num(5),
    ]);
    let s = p.parse_insert().unwrap();
    assert_eq!(s.table, vec!["t".to_string()]);
    assert_eq!(s.columns, vec!["a".to_string(), "b".to_string()]);
    assert_eq!(show(&s.source), show(&InsertSource::Values(vec![vec![lit(1), lit(2)], vec![lit(3), lit(4)]])));
    match s.on_conflict {
        Some(OnConflictAction::Update { target, assignments, where_clause }) => {
            assert_eq!(show(&target), show(&Some(OnConflictTarget::Columns(vec!["a".to_string()]))));
            assert_eq!(assignments.len(), 1);
            assert_eq!(assignments[0].column, vec!["b".to_string()]);
            assert_eq!(show(&assignments[0].value), show(&lit(5)));
            assert!(where_clause.is_none());
        },
        other => panic!("unexpected {:?}", other),
    }
    assert_eq!(p.pos(), 30);
}

#[test]
fn insert_set_default_values_and_refused_sources() {
    let mut p = parser(vec![id("t"), kw(Keyword::SET), id("a"), Token::Eq, num(1)]);
    let s = p.parse_insert().unwrap();
    match s.source {
        InsertSource::Assignments(a) => {
            assert_eq!(a.len(), 1);
            assert_eq!(a[0].column, vec!["a".to_string()]);
        },
        other => panic!("unexpected {:?}", other),
    }
    let mut p = parser(vec![id("t"), kw(Keyword::DEFAULT), kw(Keyword::VALUES)]);
    assert!(matches!(p.parse_insert().unwrap().source, InsertSource::DefaultValues));
    let mut p = parser(vec![id("t"), kw(Keyword::SELECT), num(1)]);
    match p.parse_insert().unwrap_err() {
        ParserError::UnexpectedToken { expected, .. } => assert_eq!(expected, "VALUES, SELECT, DEFAULT VALUES"),
        other => panic!("unexpected {:?}", other),
    }
    let mut p = parser(vec![id("t"), kw(Keyword::DEFAULT), kw(Keyword::VALUES), kw(Keyword::RETURNING), id("a")]);
    match p.parse_insert().unwrap_err() {
        ParserError::UnexpectedToken { expected, .. } => assert_eq!(expected, "end of INSERT"),
        other => panic!("unexpected {:?}", other),
    }
}

#[test]
fn data_type_rendering_with_modifier_expressions() {
    let t = DataType::Array(Box::new(DataType::Custom(vec!["n".to_string()], vec![lit(3), bin(lit(1), "+", lit(2))])));
    assert_eq!(format_data_type(&t), format!("{:?}", t).to_lowercase());
    assert_eq!(format_data_type(&t), "array(custom([\"n\"], [literal(integer(3)), binaryop { left: literal(integer(1)), op: \"+\", right: literal(integer(2)) }]))");
    let mut p = parser(vec![id("mytype"), Token::LParen, num(1), Token::Comma, num(2), Token::RParen]);
    let d = p.parse_data_type().unwrap();
    assert_eq!(show(&d), show(&DataType::Custom(vec!["mytype".to_string()], vec![lit(1), lit(2)])));
    assert_eq!(p.pos(), 6);
}

#[test]
fn create_schema_head_and_elements() {
    let mut p = parser(vec![
        kw(Keyword::SCHEMA),
        id("s"),
        kw(Keyword::AUTHORIZATION),
        id("joe"),
        kw(Keyword::CREATE),
        kw(Keyword::SEQUENCE),
        id("q"),
    ]);
    let s = p.parse_create_schema().unwrap();
    assert!(!s.if_not_exists);
    assert_eq!(s.name, Some("s".to_string()));
    assert_eq!(s.authorization, Some("joe".to_string()));
    assert_eq!(s.elements.len(), 1);
    assert_eq!(p.pos(), 7);
    let mut p = parser(vec![kw(Keyword::SCHEMA), kw(Keyword::AUTHORIZATION), id("joe")]);
    let s = p.parse_create_schema().unwrap();
    assert_eq!(s.name, None);
    assert!(s.elements.is_empty());
}

#[test]
fn create_database_link_clauses() {
    let mut p = parser(vec![
        kw(Keyword::DATABASE),
        id("link"),
        id("l"),
        kw(Keyword::CONNECT),
        kw(Keyword::TO),
        id("u"),
        kw(Keyword::IDENTIFIED),
        kw(Keyword::BY),
        Token::StringLiteral("pw".to_string()),
        kw(Keyword::USING),
        Token::StringLiteral("db".to_string()),
    ]);
    let d = p.parse_create_database_link(true).unwrap();
    assert_eq!(d.name, "l");
    assert!(d.public_link);
    assert_eq!(d.user, Some("u".to_string()));
    assert_eq!(d.password, Some("pw".to_string()));
    assert_eq!(d.using_clause, Some("db".to_string()));
    assert_eq!(p.pos(), 11);
}

#[test]
fn partition_for_values_are_kept() {
    let mut p = parser(vec![kw(Keyword::PARTITION), kw(Keyword::FOR), Token::LParen, num(1), Token::Comma, num(2), Token::RParen]);
    match p.parse_dml_partition().unwrap() {
        Some(ogsql_parser::ast::DmlPartitionClause::PartitionFor(v)) => {
            assert_eq!(show(&v), show(&vec![lit(1), lit(2)]));
        },
        other => panic!("unexpected {:?}", other),
    }
}
