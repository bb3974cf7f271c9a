use ogsql_parser::ast::{DataType, Expr, Literal};
use ogsql_parser::error::{ParserError, SourceLocation};
use ogsql_parser::parser::expr::format_data_type;
use ogsql_parser::parser::Parser;
use ogsql_parser::token::{Keyword, Token, TokenWithSpan};

fn parser(ts: Vec<Token>) -> Parser {
    let spans: Vec<TokenWithSpan> = ts
        .into_iter()
        .enumerate()
        .map(|(i, token)| TokenWithSpan { token, location: SourceLocation { line: 1, column: i + 1, offset: i } })
        .collect();
    Parser::new(spans)
}

fn id(s: &str) -> Token {
    Token::Ident(s.to_string())
}

fn kw(k: Keyword) -> Token {
    Token::Keyword(k)
}

fn num(n: i64) -> Token {
    Token::Integer(n)
}

fn show(e: &Expr) -> String {
    format!("{:?}", e)
}

fn warning_messages(p: &Parser) -> Vec<String> {
    p.errors()
        .iter()
        .map(|e| match e {
            ParserError::Warning { message, .. } => message.clone(),
            _ => String::new(),
        })
        .collect()
}

#[test]
fn expr_multiplication_binds_tighter_than_addition() {
    let mut p = parser(vec![num(1), Token::Plus, num(2), Token::Star, num(3)]);
    let e = p.parse_expr().unwrap();
    assert_eq!(
        show(&e),
        "BinaryOp { left: Literal(Integer(1)), op: \"+\", right: BinaryOp { left: Literal(Integer(2)), op: \"*\", right: Literal(Integer(3)) } }"
    );
    assert_eq!(p.pos(), 5);
}

#[test]
fn expr_subtraction_is_left_associative() {
    let mut p = parser(vec![num(5), Token::Minus, num(2), Token::Minus, num(1)]);
    let e = p.parse_expr().unwrap();
    assert_eq!(
        show(&e),
        "BinaryOp { left: BinaryOp { left: Literal(Integer(5)), op: \"-\", right: Literal(Integer(2)) }, op: \"-\", right: Literal(Integer(1)) }"
    );
}

#[test]
fn expr_is_null_binds_before_and() {
    let mut p = parser(vec![id("a"), Token::Eq, num(1), kw(Keyword::AND), id("b"), kw(Keyword::IS), kw(Keyword::NULL_P)]);
    let e = p.parse_expr().unwrap();
    assert_eq!(
        show(&e),
        "BinaryOp { left: BinaryOp { left: ColumnRef([\"a\"]), op: \"=\", right: Literal(Integer(1)) }, op: \"AND\", right: IsNull { expr: ColumnRef([\"b\"]), negated: false } }"
    );
    assert_eq!(p.pos(), 7);
}

#[test]
fn expr_is_not_null_and_notnull() {
    let mut p = parser(vec![id("x"), kw(Keyword::IS), kw(Keyword::NOT), kw(Keyword::NULL_P)]);
    assert_eq!(show(&p.parse_expr().unwrap()), "IsNull { expr: ColumnRef([\"x\"]), negated: true }");
    let mut q = parser(vec![id("x"), kw(Keyword::NOTNULL)]);
    assert_eq!(show(&q.parse_expr().unwrap()), "IsNull { expr: ColumnRef([\"x\"]), negated: true }");
    let mut r = parser(vec![id("x"), kw(Keyword::ISNULL)]);
    assert_eq!(show(&r.parse_expr().unwrap()), "IsNull { expr: ColumnRef([\"x\"]), negated: false }");
}

#[test]
fn expr_and_binds_tighter_than_or() {
    let mut p = parser(vec![id("a"), kw(Keyword::OR), id("b"), kw(Keyword::AND), id("c")]);
    let e = p.parse_expr().unwrap();
    assert_eq!(
        show(&e),
        "BinaryOp { left: ColumnRef([\"a\"]), op: \"OR\", right: BinaryOp { left: ColumnRef([\"b\"]), op: \"AND\", right: ColumnRef([\"c\"]) } }"
    );
}

#[test]
fn expr_literals() {
    let mut p = parser(vec![Token::StringLiteral("hi".to_string())]);
    assert_eq!(show(&p.parse_expr().unwrap()), "Literal(String(\"hi\"))");
    let mut p = parser(vec![kw(Keyword::TRUE_P)]);
    assert_eq!(show(&p.parse_expr().unwrap()), "Literal(Boolean(true))");
    let mut p = parser(vec![kw(Keyword::FALSE_P)]);
    assert_eq!(show(&p.parse_expr().unwrap()), "Literal(Boolean(false))");
    let mut p = parser(vec![kw(Keyword::NULL_P)]);
    assert_eq!(show(&p.parse_expr().unwrap()), "Literal(Null)");
    let mut p = parser(vec![Token::Param(3)]);
    assert_eq!(show(&p.parse_expr().unwrap()), "Parameter(3)");
}

#[test]
fn expr_integer_dot_integer_is_a_float() {
    let mut p = parser(vec![num(3), Token::Dot, num(14)]);
    let e = p.parse_expr().unwrap();
    match e {
        Expr::Literal(Literal::Float(s)) => assert_eq!(s, "3.14"),
        other => panic!("unexpected {:?}", other),
    }
    assert_eq!(p.pos(), 3);
}

#[test]
fn expr_integer_with_exponent_is_a_float() {
    let mut p = parser(vec![num(2), id("e10")]);
    match p.parse_expr().unwrap() {
        Expr::Literal(Literal::Float(s)) => assert_eq!(s, "2e10"),
        other => panic!("unexpected {:?}", other),
    }
}

#[test]
fn expr_unary_minus_and_not() {
    let mut p = parser(vec![Token::Minus, num(4)]);
    assert_eq!(show(&p.parse_expr().unwrap()), "UnaryOp { op: \"-\", expr: Literal(Integer(4)) }");
    let mut p = parser(vec![kw(Keyword::NOT), id("a"), Token::Eq, id("b")]);
    assert_eq!(
        show(&p.parse_expr().unwrap()),
        "UnaryOp { op: \"NOT\", expr: BinaryOp { left: ColumnRef([\"a\"]), op: \"=\", right: ColumnRef([\"b\"]) } }"
    );
}

#[test]
fn expr_parenthesized_and_row() {
    let mut p = parser(vec![Token::LParen, num(1), Token::RParen]);
    assert_eq!(show(&p.parse_expr().unwrap()), "Parenthesized(Literal(Integer(1)))");
    let mut p = parser(vec![Token::LParen, num(1), Token::Comma, num(2), Token::RParen]);
    assert_eq!(show(&p.parse_expr().unwrap()), "RowConstructor([Literal(Integer(1)), Literal(Integer(2))])");
}

#[test]
fn expr_qualified_column() {
    let mut p = parser(vec![id("t"), Token::Dot, id("c")]);
    assert_eq!(show(&p.parse_expr().unwrap()), "ColumnRef([\"t\", \"c\"])");
    assert_eq!(p.pos(), 3);
}

#[test]
fn expr_between() {
    let mut p = parser(vec![id("x"), kw(Keyword::BETWEEN), num(1), kw(Keyword::AND), num(5)]);
    assert_eq!(
        show(&p.parse_expr().unwrap()),
        "Between { expr: ColumnRef([\"x\"]), low: Literal(Integer(1)), high: Literal(Integer(5)), negated: false }"
    );
    assert_eq!(p.pos(), 5);
}

#[test]
fn expr_in_list() {
    let mut p = parser(vec![id("x"), kw(Keyword::IN_P), Token::LParen, num(1), Token::Comma, num(2), Token::RParen]);
    assert_eq!(
        show(&p.parse_expr().unwrap()),
        "InList { expr: ColumnRef([\"x\"]), list: [Literal(Integer(1)), Literal(Integer(2))], negated: false }"
    );
}

#[test]
fn expr_cast_to_varchar() {
    let mut p = parser(vec![
        kw(Keyword::CAST),
        Token::LParen,
        id("a"),
        kw(Keyword::AS),
        kw(Keyword::VARCHAR),
        Token::LParen,
        num(20),
        Token::RParen,
        Token::RParen,
    ]);
    match p.parse_expr().unwrap() {
        Expr::TypeCast { expr, data_type, default, format } => {
            assert_eq!(show(&expr), "ColumnRef([\"a\"])");
            assert_eq!(format_data_type(&data_type), "varchar(20)");
            assert!(default.is_none());
            assert!(format.is_none());
        },
        other => panic!("unexpected {:?}", other),
    }
    assert_eq!(p.pos(), 9);
}

#[test]
fn expr_typecast_operator() {
    let mut p = parser(vec![id("a"), Token::Typecast, kw(Keyword::INTEGER)]);
    match p.parse_expr().unwrap() {
        Expr::TypeCast { expr, data_type, .. } => {
            assert_eq!(show(&expr), "ColumnRef([\"a\"])");
            assert_eq!(format_data_type(&data_type), "integer");
        },
        other => panic!("unexpected {:?}", other),
    }
}

#[test]
fn expr_case_searched() {
    let mut p = parser(vec![
        kw(Keyword::CASE),
        kw(Keyword::WHEN),
        id("a"),
        kw(Keyword::THEN),
        num(1),
        kw(Keyword::ELSE),
        num(0),
        kw(Keyword::END_P),
    ]);
    assert_eq!(
        show(&p.parse_expr().unwrap()),
        "Case { operand: None, whens: [WhenClause { condition: ColumnRef([\"a\"]), result: Literal(Integer(1)) }], else_expr: Some(Literal(Integer(0))) }"
    );
    assert_eq!(p.pos(), 8);
}

#[test]
fn expr_function_call() {
    let mut p = parser(vec![id("upper"), Token::LParen, id("a"), Token::RParen]);
    match p.parse_expr().unwrap() {
        Expr::FunctionCall { name, args, distinct, over, filter, within_group } => {
            assert_eq!(name, vec!["upper".to_string()]);
            assert_eq!(args.len(), 1);
            assert!(!distinct);
            assert!(over.is_none());
            assert!(filter.is_none());
            assert!(within_group.is_empty());
        },
        other => panic!("unexpected {:?}", other),
    }
    assert!(p.errors().is_empty());
}

#[test]
fn expr_count_star() {
    let mut p = parser(vec![id("count"), Token::LParen, Token::Star, Token::RParen]);
    match p.parse_expr().unwrap() {
        Expr::FunctionCall { args, .. } => assert_eq!(show(&args[0]), "ColumnRef([\"*\"])"),
        other => panic!("unexpected {:?}", other),
    }
    assert!(p.errors().is_empty());
}

#[test]
fn expr_function_call_warnings() {
    let mut p = parser(vec![id("UPPER"), Token::LParen, kw(Keyword::DISTINCT), id("a"), Token::RParen]);
    p.parse_expr().unwrap();
    assert_eq!(warning_messages(&p), vec!["Function 'upper' does not support DISTINCT modifier".to_string()]);

    let mut p = parser(vec![id("now"), Token::LParen, num(1), Token::RParen]);
    p.parse_expr().unwrap();
    assert_eq!(warning_messages(&p), vec!["Function 'now' takes no arguments but 1 were provided".to_string()]);

    let mut p = parser(vec![id("row_number"), Token::LParen, Token::RParen]);
    p.parse_expr().unwrap();
    assert_eq!(warning_messages(&p), vec!["Window function 'row_number' should have an OVER clause".to_string()]);
}

#[test]
fn expr_window_function_with_over() {
    let mut p = parser(vec![id("row_number"), Token::LParen, Token::RParen, kw(Keyword::OVER), Token::LParen, Token::RParen]);
    match p.parse_expr().unwrap() {
        Expr::FunctionCall { over, .. } => {
            let w = over.unwrap();
            assert!(w.partition_by.is_empty());
            assert!(w.order_by.is_empty());
            assert!(w.frame.is_none());
            assert!(w.window_name.is_none());
        },
        other => panic!("unexpected {:?}", other),
    }
    assert!(p.errors().is_empty());
    assert_eq!(p.pos(), 6);
}

#[test]
fn expr_missing_operand_is_an_error() {
    let mut p = parser(vec![Token::RParen]);
    let e = p.parse_expr().unwrap_err();
    match e {
        ParserError::UnexpectedToken { expected, .. } => assert_eq!(expected, "expression"),
        other => panic!("unexpected {:?}", other),
    }
}

#[test]
fn expr_stops_before_lower_precedence_token() {
    let mut p = parser(vec![num(1), Token::Comma, num(2)]);
    assert_eq!(show(&p.parse_expr().unwrap()), "Literal(Integer(1))");
    assert_eq!(p.pos(), 1);
}

#[test]
fn data_type_keywords() {
    let mut p = parser(vec![kw(Keyword::INT_P)]);
    assert_eq!(format_data_type(&p.parse_data_type().unwrap()), "integer");
    let mut p = parser(vec![kw(Keyword::BIGINT)]);
    assert_eq!(format_data_type(&p.parse_data_type().unwrap()), "bigint");
    let mut p = parser(vec![kw(Keyword::BOOLEAN_P)]);
    assert_eq!(format_data_type(&p.parse_data_type().unwrap()), "boolean");
    let mut p = parser(vec![kw(Keyword::NUMERIC), Token::LParen, num(10), Token::Comma, num(2), Token::RParen]);
    assert_eq!(format_data_type(&p.parse_data_type().unwrap()), "numeric(10,2)");
    assert_eq!(p.pos(), 6);
    let mut p = parser(vec![kw(Keyword::DOUBLE_P), kw(Keyword::PRECISION)]);
    assert_eq!(format_data_type(&p.parse_data_type().unwrap()), "double precision");
}

#[test]
fn data_type_array_suffix() {
    let mut p = parser(vec![kw(Keyword::INTEGER), Token::LBracket, Token::RBracket]);
    match p.parse_data_type().unwrap() {
        DataType::Array(inner) => assert_eq!(format_data_type(&inner), "integer"),
        other => panic!("unexpected {:?}", other),
    }
    assert_eq!(p.pos(), 3);
}

#[test]
fn data_type_custom_name() {
    let mut p = parser(vec![id("my_schema"), Token::Dot, id("my_type")]);
    let t = p.parse_data_type().unwrap();
    assert_eq!(format_data_type(&t), "my_schema.my_type");
}

#[test]
fn format_data_type_exact_values() {
    assert_eq!(format_data_type(&DataType::Varchar(Some(255))), "varchar(255)");
    assert_eq!(format_data_type(&DataType::Char(None)), "char");
    assert_eq!(format_data_type(&DataType::Numeric(Some(8), None)), "numeric(8)");
    assert_eq!(format_data_type(&DataType::Numeric(None, Some(3))), "numeric");
    assert_eq!(format_data_type(&DataType::Timestamp(Some(6), None)), "timestamp(6)");
    assert_eq!(format_data_type(&DataType::Float(Some(24))), "float(24)");
    assert_eq!(format_data_type(&DataType::TinyInt(Some(3))), "tinyint");
    assert_eq!(format_data_type(&DataType::Custom(vec!["a".to_string(), "b".to_string()], vec![])), "a.b");
    assert_eq!(format_data_type(&DataType::Uuid), "uuid");
    assert_eq!(format_data_type(&DataType::Text), "text");
}

#[test]
fn format_data_type_falls_back_to_lowercased_debug() {
    assert_eq!(format_data_type(&DataType::Date), "date");
    assert_eq!(format_data_type(&DataType::Varbit(None)), "varbit(none)");
    assert_eq!(format_data_type(&DataType::Bit(Some(4))), "bit(some(4))");
}
