use ogsql_parser::ast::{
    AlterColumnAction, AlterTableAction, AlterTypeAction, ColumnConstraint, DataType, DistributeClause, Expr, Literal, PartitionClause,
    PartitionValues, TableConstraint,
};
use ogsql_parser::error::SourceLocation;
use ogsql_parser::parser::Parser;
use ogsql_parser::token::{Keyword, Token, TokenWithSpan};

fn parser(ts: Vec<Token>) -> Parser {
    let spans: Vec<TokenWithSpan> = ts
        .into_iter()
        .enumerate()
        .map(|(i, token)| TokenWithSpan { token, location: SourceLocation { line: 1, column: i + 1, offset: i } })
        .collect();
    Parser::new(spans)
}

fn id(s: &str) -> Token {
    Token::Ident(s.to_string())
}

fn kw(k: Keyword) -> Token {
    Token::Keyword(k)
}

fn num(n: i64) -> Token {
    Token::Integer(n)
}

fn lit(n: i64) -> Expr {
    Expr::Literal(Literal::Integer(n))
}

fn show<T: std::fmt::Debug>(x: &T) -> String {
    format!("{:?}", x)
}

fn plus(l: Expr, r: Expr) -> Expr {
    Expr::BinaryOp { left: Box::new(l), op: "+".to_string(), right: Box::new(r) }
}

#[test]
fn create_table_keeps_each_table_clause() {
    let mut p = parser(vec![
        kw(Keyword::TABLE),
        id("t"),
        Token::LParen,
        id("a"),
        kw(Keyword::INT_P),
        Token::RParen,
        kw(Keyword::TABLESPACE),
        id("ts"),
        kw(Keyword::WITH),
        Token::LParen,
        id("fillfactor"),
        Token::Eq,
        num(70),
        Token::RParen,
        kw(Keyword::DISTRIBUTE),
        kw(Keyword::BY),
        id("hash"),
        Token::LParen,
        id("a"),
        Token::RParen,
        kw(Keyword::COMPRESS),
    ]);
    let s = p.parse_create_table(false, false).unwrap();
    assert_eq!(s.columns.len(), 1);
    assert_eq!(s.tablespace, Some("ts".to_string()));
    assert_eq!(s.options, vec![("fillfactor".to_string(), "70".to_string())]);
    assert_eq!(show(&s.distribute_by), show(&Some(DistributeClause::Hash { columns: vec!["a".to_string()] })));
    assert_eq!(s.compress, Some(true));
    assert!(s.to_group.is_none() && s.on_commit.is_none() && s.partition_by.is_none());
    assert_eq!(p.pos(), 21);
}

#[test]
fn create_table_comment_and_table_option() {
    let mut p = parser(vec![
        kw(Keyword::TABLE),
        id("t"),
        Token::LParen,
        id("a"),
        kw(Keyword::INT_P),
        Token::RParen,
        kw(Keyword::COMMENT),
        Token::Eq,
        Token::StringLiteral("note".to_string()),
        kw(Keyword::TO),
        kw(Keyword::GROUP_P),
        id("g"),
    ]);
    let s = p.parse_create_table(false, false).unwrap();
    assert_eq!(s.table_options, vec![("COMMENT".to_string(), "note".to_string())]);
    assert_eq!(s.to_group, Some("g".to_string()));
    assert!(s.tablespace.is_none());
}

#[test]
fn column_with_charset_collate_and_comment() {
    let mut p = parser(vec![
        id("c"),
        kw(Keyword::TEXT_P),
        kw(Keyword::CHARACTER),
        kw(Keyword::SET),
        id("utf8"),
        kw(Keyword::COLLATE),
        id("binary"),
        kw(Keyword::NOT),
        kw(Keyword::NULL_P),
        kw(Keyword::COMMENT),
        Token::StringLiteral("the c".to_string()),
    ]);
    let c = p.parse_column_def().unwrap();
    assert_eq!(c.name, "c");
    assert_eq!(show(&c.data_type), show(&DataType::Text));
    assert_eq!(c.charset, Some("utf8".to_string()));
    assert_eq!(c.collate, Some("binary".to_string()));
    assert_eq!(c.comment, Some("the c".to_string()));
    assert_eq!(c.constraints.len(), 1);
    assert!(c.on_update.is_none() && c.generated.is_none() && c.encrypted_with.is_none());
    assert_eq!(p.pos(), 11);
}

#[test]
fn column_with_late_charset_after_constraints() {
    let mut p = parser(vec![id("c"), kw(Keyword::TEXT_P), kw(Keyword::NULL_P), kw(Keyword::CHARSET), id("gbk")]);
    let c = p.parse_column_def().unwrap();
    assert_eq!(c.charset, Some("gbk".to_string()));
    assert!(c.collate.is_none());
    assert_eq!(p.pos(), 5);
}

#[test]
fn alter_table_add_keeps_every_column_in_order() {
    let mut p = parser(vec![
        kw(Keyword::ADD_P),
        Token::LParen,
        id("a"),
        kw(Keyword::INT_P),
        Token::Comma,
        id("b"),
        kw(Keyword::TEXT_P),
        Token::RParen,
    ]);
    match p.parse_alter_table_action().unwrap() {
        AlterTableAction::AddColumns(cols) => {
            assert_eq!(cols.len(), 2);
            assert_eq!(cols[0].name, "a");
            assert_eq!(show(&cols[0].data_type), show(&DataType::Integer(None)));
            assert_eq!(cols[1].name, "b");
            assert_eq!(show(&cols[1].data_type), show(&DataType::Text));
        },
        other => panic!("unexpected {:?}", other),
    }
    assert_eq!(p.pos(), 8);
}

#[test]
fn alter_table_add_column_list_without_close_fails() {
    let mut p = parser(vec![kw(Keyword::ADD_P), Token::LParen, id("a"), kw(Keyword::INT_P), id("x")]);
    assert!(p.parse_alter_table_action().is_err());
    assert_eq!(p.pos(), 4);
}

#[test]
fn alter_table_modify_keeps_every_column_and_nullability() {
    let mut p = parser(vec![
        kw(Keyword::MODIFY_P),
        Token::LParen,
        id("a"),
        kw(Keyword::INT_P),
        kw(Keyword::NOT),
        kw(Keyword::NULL_P),
        Token::Comma,
        id("b"),
        kw(Keyword::TEXT_P),
        kw(Keyword::NULL_P),
        Token::Comma,
        id("c"),
        kw(Keyword::BIGINT),
        Token::RParen,
    ]);
    match p.parse_alter_table_action().unwrap() {
        AlterTableAction::ModifyColumns(cols) => {
            assert_eq!(cols.len(), 3);
            assert_eq!((cols[0].name.as_str(), cols[0].nullability), ("a", Some(false)));
            assert_eq!((cols[1].name.as_str(), cols[1].nullability), ("b", Some(true)));
            assert_eq!((cols[2].name.as_str(), cols[2].nullability), ("c", None));
            assert_eq!(show(&cols[2].data_type), show(&DataType::BigInt(None)));
        },
        other => panic!("unexpected {:?}", other),
    }
    assert_eq!(p.pos(), 14);
}

#[test]
fn alter_column_set_default_to_an_expression() {
    let mut p = parser(vec![
        kw(Keyword::ALTER),
        kw(Keyword::COLUMN),
        id("c"),
        kw(Keyword::SET),
        kw(Keyword::DEFAULT),
        num(1),
        Token::Plus,
        num(2),
    ]);
    match p.parse_alter_table_action().unwrap() {
        AlterTableAction::AlterColumn { name, action } => {
            assert_eq!(name, "c");
            assert_eq!(show(&action), show(&AlterColumnAction::SetDefault(plus(lit(1), lit(2)))));
        },
        other => panic!("unexpected {:?}", other),
    }
    assert_eq!(p.pos(), 8);
}

#[test]
fn row_with_expression_elements() {
    let mut p = parser(vec![Token::LParen, num(1), Token::Plus, num(2), Token::Comma, num(3), Token::RParen]);
    assert_eq!(show(&p.parse_expr().unwrap()), show(&Expr::RowConstructor(vec![plus(lit(1), lit(2)), lit(3)])));
    assert_eq!(p.pos(), 7);
}

#[test]
fn alter_type_add_attribute_keeps_type_text() {
    let mut p = parser(vec![
        kw(Keyword::TYPE_P),
        id("t"),
        id("add"),
        id("attribute"),
        id("a"),
        kw(Keyword::INTEGER),
        kw(Keyword::CASCADE),
    ]);
    let s = p.parse_alter_type().unwrap();
    assert_eq!(s.name, vec!["t".to_string()]);
    assert_eq!(
        show(&s.action),
        show(&AlterTypeAction::AddAttribute { name: "a".to_string(), data_type: "integer".to_string(), cascade: true })
    );
    assert_eq!(p.pos(), 7);
}

fn table_head(extra: Vec<Token>) -> Vec<Token> {
    let mut v = vec![kw(Keyword::TABLE), id("t"), Token::LParen, id("a"), kw(Keyword::INT_P), Token::RParen];
    v.extend(extra);
    v
}

#[test]
fn create_table_range_partitions_with_definitions() {
    let mut p = parser(table_head(vec![
        kw(Keyword::PARTITION),
        kw(Keyword::BY),
        kw(Keyword::RANGE),
        Token::LParen,
        id("a"),
        Token::RParen,
        Token::LParen,
        kw(Keyword::PARTITION),
        id("p1"),
        kw(Keyword::VALUES),
        kw(Keyword::LESS),
        kw(Keyword::THAN),
        Token::LParen,
        num(10),
        Token::RParen,
        Token::Comma,
        kw(Keyword::PARTITION),
        id("p2"),
        kw(Keyword::VALUES),
        kw(Keyword::LESS),
        kw(Keyword::THAN),
        Token::LParen,
        num(20),
        Token::RParen,
        kw(Keyword::TABLESPACE),
        id("ts"),
        Token::RParen,
    ]));
    let s = p.parse_create_table(false, false).unwrap();
    match s.partition_by {
        Some(PartitionClause::Range { columns, interval, is_columns, partitions_count, partitions }) => {
            assert_eq!(columns, vec![vec!["a".to_string()]]);
            assert!(interval.is_none() && !is_columns && partitions_count.is_none());
            assert_eq!(partitions.len(), 2);
            assert_eq!(partitions[0].name, "p1");
            assert_eq!(show(&partitions[0].values), show(&Some(PartitionValues::LessThan(vec![lit(10)]))));
            assert!(partitions[0].tablespace.is_none());
            assert_eq!(partitions[1].name, "p2");
            assert_eq!(show(&partitions[1].values), show(&Some(PartitionValues::LessThan(vec![lit(20)]))));
            assert_eq!(partitions[1].tablespace, Some("ts".to_string()));
        },
        other => panic!("unexpected {:?}", other),
    }
    assert!(s.subpartition_by.is_none() && s.ilm.is_none());
    assert_eq!(p.pos(), 33);
}

#[test]
fn create_table_subpartitions_take_pending_definitions() {
    let mut p = parser(table_head(vec![
        kw(Keyword::PARTITION),
        kw(Keyword::BY),
        kw(Keyword::LIST),
        Token::LParen,
        id("a"),
        Token::RParen,
        kw(Keyword::SUBPARTITION),
        kw(Keyword::BY),
        id("hash"),
        Token::LParen,
        id("a"),
        Token::RParen,
        kw(Keyword::SUBPARTITIONS),
        num(2),
        Token::LParen,
        kw(Keyword::PARTITION),
        id("p1"),
        kw(Keyword::VALUES),
        Token::LParen,
        num(1),
        Token::RParen,
        Token::RParen,
    ]));
    let s = p.parse_create_table(false, false).unwrap();
    match &s.partition_by {
        Some(PartitionClause::List { partitions, .. }) => {
            assert_eq!(partitions.len(), 1);
            assert_eq!(partitions[0].name, "p1");
            assert_eq!(show(&partitions[0].values), show(&Some(PartitionValues::InValues(vec![lit(1)]))));
        },
        other => panic!("unexpected {:?}", other),
    }
    match &s.subpartition_by {
        Some(PartitionClause::Hash { partitions_count, partitions, .. }) => {
            assert_eq!(*partitions_count, Some(2));
            assert!(partitions.is_empty());
        },
        other => panic!("unexpected {:?}", other),
    }
    assert_eq!(s.subpartitions_count, Some(2));
    assert_eq!(p.pos(), 28);
}

#[test]
fn create_table_ilm_policy_is_kept() {
    let mut p = parser(table_head(vec![
        id("ilm"),
        kw(Keyword::ADD_P),
        id("policy"),
        id("row"),
        id("store"),
        kw(Keyword::AFTER),
        num(3),
        id("day"),
        kw(Keyword::OF),
        id("no"),
        id("modification"),
        kw(Keyword::TABLESPACE),
        id("ts"),
    ]));
    let s = p.parse_create_table(false, false).unwrap();
    let ilm = s.ilm.unwrap();
    assert_eq!(ilm.after_n, 3);
    assert_eq!(ilm.unit, "day");
    assert!(ilm.condition.is_none());
    assert_eq!(s.tablespace, Some("ts".to_string()));
    assert_eq!(p.pos(), 19);
}

#[test]
fn column_default_and_check_keep_their_expressions() {
    let mut p = parser(vec![
        id("c"),
        kw(Keyword::INT_P),
        kw(Keyword::DEFAULT),
        num(1),
        Token::Plus,
        num(2),
        kw(Keyword::CHECK),
        Token::LParen,
        id("c"),
        Token::Gt,
        num(0),
        Token::RParen,
    ]);
    let c = p.parse_column_def().unwrap();
    let gt = Expr::BinaryOp {
        left: Box::new(Expr::ColumnRef(vec!["c".to_string()])),
        op: ">".to_string(),
        right: Box::new(lit(0)),
    };
    assert_eq!(
        show(&c.constraints),
        show(&vec![ColumnConstraint::Default(plus(lit(1), lit(2))), ColumnConstraint::Check(gt)])
    );
    assert_eq!(p.pos(), 12);
}

#[test]
fn table_check_constraint_keeps_its_expression() {
    let mut p = parser(vec![kw(Keyword::CHECK), Token::LParen, num(1), Token::Plus, num(2), Token::RParen]);
    assert_eq!(show(&p.parse_table_constraint().unwrap()), show(&TableConstraint::Check(plus(lit(1), lit(2)))));
    assert_eq!(p.pos(), 6);
}

#[test]
fn modify_column_keeps_type_modifier_expressions() {
    let mut p = parser(vec![
        kw(Keyword::MODIFY_P),
        Token::LParen,
        id("a"),
        id("money"),
        Token::LParen,
        num(1),
        Token::Plus,
        num(2),
        Token::Comma,
        num(3),
        Token::RParen,
        Token::RParen,
    ]);
    match p.parse_alter_table_action().unwrap() {
        AlterTableAction::ModifyColumns(cols) => {
            assert_eq!(cols.len(), 1);
            assert_eq!(
                show(&cols[0].data_type),
                show(&DataType::Custom(vec!["money".to_string()], vec![plus(lit(1), lit(2)), lit(3)]))
            );
        },
        other => panic!("unexpected {:?}", other),
    }
    assert_eq!(p.pos(), 12);
}
